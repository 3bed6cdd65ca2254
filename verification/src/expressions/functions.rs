//! Functions of the interpreted language, the builders that name them, and
//! calls.

use vstd::prelude::*;
use crate::expressions::reference::Reference;
use crate::expressions::statements::{Statement, clone_statements, execute_statements, run_statements};
use crate::expressions::{
    Expression,
    all_values,
    clone_expressions,
    evaluate_all,
    execute_all,
    values_of,
};
use crate::interpreter::context::{Context, ContractMap, paired, realizes};
use crate::interpreter::error::{EvaluationError};
use crate::interpreter::model::{
    Bindings,
    Failure,
    Frames,
    Outcome,
    Place,
    Value,
    resolve,
};

verus! {

/// The parameter names of a function.
pub type FunctionArgs = Vec<String>;

/// The arguments of a call.
pub type FunctionParams = Vec<Expression>;

/// A parameter name with the argument bound to it.
pub type FunctionArgParamPair = (String, Expression);

/// A function of the interpreted language: parameter names, body and the
/// contracts of its loops, by tag.
#[derive(Debug, PartialEq)]
pub struct Function {
    pub args: FunctionArgs,
    pub statements: Vec<Statement>,
    pub contracts: ContractMap,
}

/// A handle that yields a function whenever it is asked to; nodes name the
/// functions they call by such a handle.
#[derive(Debug, PartialEq)]
pub struct FunctionBuilder {
    pub function: Box<Function>,
}

/// A call of the function behind a builder.
#[derive(Debug, PartialEq)]
pub struct FunctionCall {
    pub builder: FunctionBuilder,
    pub params: FunctionParams,
}

/// The frame that binds the first `count` parameter names to the arguments
/// in the same positions; of two equal names the later one stays.
pub open spec fn parameters(names: Seq<String>, arguments: Seq<Value>, count: nat) -> Bindings
    decreases count,
{
    if count == 0 {
        Map::empty()
    } else {
        parameters(names, arguments, (count - 1) as nat).insert(
            names[count - 1]@,
            arguments[count - 1],
        )
    }
}

/// Pairs that agree with names and values in every position bind what the
/// parameters bind.
pub proof fn lemma_paired_parameters(
    pairs: Seq<FunctionArgParamPair>,
    names: Seq<String>,
    arguments: Seq<Value>,
    count: nat,
)
    requires
        count <= pairs.len(),
        forall|i: int|
            0 <= i < count ==> (#[trigger] pairs[i]).0@ == names[i]@ && pairs[i].1.value()
                == arguments[i],
    ensures
        paired(pairs, count) == parameters(names, arguments, count),
    decreases count,
{
    if count > 0 {
        lemma_paired_parameters(pairs, names, arguments, (count - 1) as nat);
        assert(pairs[count - 1].0@ == names[count - 1]@);
    }
}

/// Pairs each parameter name with the argument in the same position.
fn pair_arguments(names: &FunctionArgs, args: FunctionParams) -> (pairs: Vec<FunctionArgParamPair>)
    requires
        names@.len() == args@.len(),
        all_values(args@),
    ensures
        pairs@.len() == args@.len(),
        forall|i: int|
            0 <= i < pairs@.len() ==> (#[trigger] pairs@[i]).0@ == names@[i]@ && pairs@[i].1
                == args@[i],
{
    let mut args = args;
    let ghost given = args@;
    let mut pairs: Vec<FunctionArgParamPair> = Vec::new();
    let mut i: usize = 0;
    while i < names.len()
        invariant
            i <= names@.len(),
            names@.len() == given.len(),
            args@.len() == given.len(),
            pairs@.len() == i,
            forall|j: int| i <= j < args@.len() ==> args@[j] == given[j],
            forall|j: int|
                0 <= j < i ==> (#[trigger] pairs@[j]).0@ == names@[j]@ && pairs@[j].1 == given[j],
        decreases names@.len() - i,
    {
        let mut argument = Expression::Unit;
        args.set_and_swap(i, &mut argument);
        pairs.push((names[i].clone(), argument));
        i += 1;
    }
    pairs
}

impl Function {
    /// A function with these parameter names, body and contract table.
    pub fn new(args: FunctionArgs, statements: Vec<Statement>, contracts: ContractMap) -> (r: Self)
        ensures
            r.args == args,
            r.statements == statements,
            r.contracts == contracts,
    {
        Self { args, statements, contracts }
    }

    /// Calls the function in `context` with already evaluated arguments:
    /// their number must be that of the parameters; the body then runs in a
    /// new frame that binds them, which is popped on every path out.
    pub fn execute(&self, context: &mut Context, args: FunctionParams, fuel: u64) -> (r: Result<
        Expression,
        EvaluationError,
    >)
        requires
            old(context).wf(),
            all_values(args@),
        ensures
            realizes(
                *old(context),
                *final(context),
                r,
                self.run(old(context)@, old(context).contracts(), values_of(args@), fuel as nat),
            ),
        decreases 4 * fuel + 3, self, 0nat,
    {
        if args.len() != self.args.len() {
            return Err(EvaluationError::ArityMismatch(self.args.len(), args.len()));
        }
        let ghost arguments = values_of(args@);
        let arg_pairs = pair_arguments(&self.args, args);
        proof {
            lemma_paired_parameters(arg_pairs@, self.args@, arguments, arguments.len());
        }
        context.push_stack_from(arg_pairs);
        let result = execute_statements(&self.statements, Expression::Unit, context, fuel);
        context.pop_stack();
        result
    }

    /// The arguments of a call as the live bindings of the parameter names
    /// give them; the first name without a binding is the error.
    #[verifier::loop_isolation(false)]
    pub fn extract_args_from_context(&self, context: &Context) -> (r: Result<
        Vec<Expression>,
        EvaluationError,
    >)
        requires
            context.wf(),
        ensures
            match r {
                Ok(found) => all_values(found@) && found@.len() == self.args@.len() && forall|
                    i: int,
                |
                    0 <= i < found@.len() ==> resolve(context@, Place::Variable(self.args@[i]@))
                        == Ok::<Value, Failure>((#[trigger] found@[i]).value()),
                Err(error) => exists|i: int|
                    0 <= i < self.args@.len() && error@ == Failure::UnknownReference(
                        self.args@[i]@,
                    ) && resolve(context@, Place::Variable(self.args@[i]@)) == Err::<
                        Value,
                        Failure,
                    >(error@) && forall|j: int|
                        0 <= j < i ==> resolve(
                            context@,
                            Place::Variable((#[trigger] self.args@[j])@),
                        ) is Ok,
            },
    {
        let mut found: Vec<Expression> = Vec::new();
        let mut i: usize = 0;
        while i < self.args.len()
            invariant
                i <= self.args@.len(),
                found@.len() == i,
                all_values(found@),
                forall|j: int|
                    0 <= j < i ==> resolve(context@, Place::Variable(self.args@[j]@)) == Ok::<
                        Value,
                        Failure,
                    >((#[trigger] found@[j]).value()),
            decreases self.args@.len() - i,
        {
            let reference = Reference::Variable(self.args[i].clone());
            match context.search_reference(&reference) {
                Ok(value) => {
                    found.push(value.duplicate());
                },
                Err(error) => {
                    assert forall|j: int| 0 <= j < i implies resolve(
                        context@,
                        Place::Variable((#[trigger] self.args@[j])@),
                    ) is Ok by {
                        assert(resolve(context@, Place::Variable(self.args@[j]@)) == Ok::<
                            Value,
                            Failure,
                        >(found@[j].value()));
                    }
                    return Err(error);
                },
            }
            i += 1;
        }
        Ok(found)
    }

    /// A call with `arguments` in the environment `frames`: the number of
    /// arguments must be that of the parameters; the body then runs in a new
    /// frame that binds them, and the frame is gone afterwards. The value is
    /// that of the last statement, or unit.
    pub open spec fn run(
        self,
        frames: Frames,
        contracts: ContractMap,
        arguments: Seq<Value>,
        fuel: nat,
    ) -> Outcome
        decreases 4 * fuel + 3, self, 0nat,
    {
        if arguments.len() != self.args@.len() {
            Outcome::fail(Failure::ArityMismatch(self.args@.len(), arguments.len()), frames)
        } else {
            run_statements(
                self.statements@,
                0,
                Value::Unit,
                frames.push(parameters(self.args@, arguments, arguments.len())),
                contracts,
                fuel,
            ).unwound()
        }
    }
}

impl FunctionBuilder {
    /// A builder of `function`.
    pub fn new(function: Function) -> (r: Self)
        ensures
            *r.function == function,
    {
        Self { function: Box::new(function) }
    }

    /// The function that the builder stands for.
    pub fn build(&self) -> (r: &Function)
        ensures
            *r == *self.function,
    {
        &self.function
    }
}

impl FunctionCall {
    /// Evaluates the parameters left to right in the caller's context, then
    /// runs the function in a context of its own, made with the function's
    /// contract table.
    pub fn execute(&self, context: &mut Context, fuel: u64) -> (r: Result<Expression, EvaluationError>)
        requires
            old(context).wf(),
            old(context)@.len() > 0,
        ensures
            realizes(
                *old(context),
                *final(context),
                r,
                self.evaluate(old(context)@, old(context).contracts(), fuel as nat),
            ),
        decreases 4 * fuel + 3, self, 0nat,
    {
        let args = match execute_all(&self.params, context, fuel) {
            Ok(found) => found,
            Err(error) => {
                return Err(error);
            },
        };
        let function = self.builder.build();
        let mut child_context = Context::new(&function.contracts);
        function.execute(&mut child_context, args, fuel)
    }

    /// The parameters are evaluated left to right in the caller's
    /// environment; the function then runs in an environment of its own, with
    /// its own contract table, and only its result comes back.
    pub open spec fn evaluate(self, frames: Frames, contracts: ContractMap, fuel: nat) -> Outcome
        decreases 4 * fuel + 3, self, 0nat,
    {
        let arguments = evaluate_all(self.params@, 0, Seq::empty(), frames, contracts, fuel);
        match arguments.result {
            Err(failure) => Outcome::fail(failure, arguments.frames),
            Ok(values) => Outcome {
                result: self.builder.function.run(
                    Seq::empty(),
                    self.builder.function.contracts,
                    values,
                    fuel,
                ).result,
                frames: arguments.frames,
            },
        }
    }
}

impl Clone for Function {
    fn clone(&self) -> (r: Self)
        ensures
            r.args@.len() == self.args@.len(),
            r.statements@.len() == self.statements@.len(),
        decreases *self,
    {
        Function {
            args: self.args.clone(),
            statements: clone_statements(&self.statements),
            contracts: self.contracts.clone(),
        }
    }
}

impl Clone for FunctionBuilder {
    fn clone(&self) -> (r: Self)
        decreases *self,
    {
        let function: Function = (*self.function).clone();
        FunctionBuilder { function: Box::new(function) }
    }
}

impl Clone for FunctionCall {
    fn clone(&self) -> (r: Self)
        ensures
            r.params@.len() == self.params@.len(),
        decreases *self,
    {
        FunctionCall { builder: self.builder.clone(), params: clone_expressions(&self.params) }
    }
}

} // verus!
