//! Blocks: statement lists with a scope of their own.

use vstd::prelude::*;
use crate::expressions::statements::{Statement, clone_statements, execute_statements, run_statements};
use crate::expressions::Expression;
use crate::interpreter::context::{Context, ContractMap, realizes};
use crate::interpreter::error::EvaluationError;
use crate::interpreter::model::{Frames, Outcome, Value};

verus! {

/// A brace-delimited statement list with a scope of its own.
#[derive(Debug, PartialEq)]
pub struct Block {
    pub statements: Vec<Statement>,
}

impl Block {
    /// Executes the statements in a frame of their own, which is popped on
    /// every path out.
    pub fn execute(&self, context: &mut Context, fuel: u64) -> (r: Result<Expression, EvaluationError>)
        requires
            old(context).wf(),
            old(context)@.len() > 0,
        ensures
            realizes(
                *old(context),
                *final(context),
                r,
                self.evaluate(old(context)@, old(context).contracts(), fuel as nat),
            ),
        decreases 4 * fuel + 3, self, 0nat,
    {
        context.push_stack();
        let result = execute_statements(&self.statements, Expression::Unit, context, fuel);
        context.pop_stack();
        result
    }

    /// The statements run in a fresh innermost frame, which is gone
    /// afterwards whether they succeeded or not.
    pub open spec fn evaluate(self, frames: Frames, contracts: ContractMap, fuel: nat) -> Outcome
        decreases 4 * fuel + 3, self, 0nat,
    {
        run_statements(
            self.statements@,
            0,
            Value::Unit,
            frames.push(Map::empty()),
            contracts,
            fuel,
        ).unwound()
    }
}

impl Clone for Block {
    fn clone(&self) -> (r: Self)
        ensures
            r.statements@.len() == self.statements@.len(),
        decreases *self,
    {
        Block { statements: clone_statements(&self.statements) }
    }
}

} // verus!
