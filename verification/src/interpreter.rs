//! The entry points of the interpreter.

use vstd::prelude::*;
use crate::expressions::functions::Function;
use crate::expressions::{Expression, all_values, values_of};
use crate::interpreter::context::{Context, ContractMap};
use crate::interpreter::error::{EvaluationError, agrees};
use crate::interpreter::model::Bindings;

pub mod context;
pub mod error;
pub mod model;

verus! {

/// The bound that the entry points give an evaluation: more iterations than
/// any loop will ever make.
pub const FUEL: u64 = 0xffff_ffff_ffff_ffff;

/// An interpreter for one function: it holds the root context.
pub struct Interpreter<'a> {
    root_context: Context<'a>,
}

impl<'a> Interpreter<'a> {
    /// An interpreter whose root context has no frames and this contract
    /// table.
    pub fn new(contracts: &'a ContractMap) -> (r: Self)
        ensures
            r.context().wf(),
            r.context()@ == Seq::<Bindings>::empty(),
            r.context().contracts() == *contracts,
    {
        Self { root_context: Context::new(contracts) }
    }

    /// The root context.
    pub closed spec fn context(self) -> Context<'a> {
        self.root_context
    }

    /// Calls a function that takes no arguments, in a fresh root context
    /// made with the function's own contract table.
    pub fn execute_function(function: Function) -> (r: Result<Expression, EvaluationError>)
        ensures
            agrees(r, function.run(Seq::empty(), function.contracts, Seq::empty(), FUEL as nat).result),
    {
        let mut interpreter = Interpreter::new(&function.contracts);
        let expressions: Vec<Expression> = Vec::new();
        assert(values_of(expressions@) =~= Seq::empty());
        function.execute(&mut interpreter.root_context, expressions, FUEL)
    }

    /// Calls a function with already evaluated arguments, in a fresh root
    /// context made with the function's own contract table.
    pub fn execute_function_with_args(function: Function, expressions: Vec<Expression>) -> (r: Result<
        Expression,
        EvaluationError,
    >)
        requires
            all_values(expressions@),
        ensures
            agrees(
                r,
                function.run(
                    Seq::empty(),
                    function.contracts,
                    values_of(expressions@),
                    FUEL as nat,
                ).result,
            ),
    {
        let mut interpreter = Interpreter::new(&function.contracts);
        function.execute(&mut interpreter.root_context, expressions, FUEL)
    }
}

} // verus!
