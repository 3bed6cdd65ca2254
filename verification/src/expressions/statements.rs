//! Statements and statement lists.

use vstd::prelude::*;
use crate::expressions::reference::{IndexedAccessExpression, Reference};
use crate::expressions::Expression;
use crate::interpreter::context::{Context, ContractMap, realizes};
use crate::interpreter::error::EvaluationError;
use crate::interpreter::model::{
    Failure,
    Frames,
    Outcome,
    Place,
    Value,
    store,
};

verus! {

/// One step of a statement list.
#[derive(Debug, PartialEq)]
pub enum Statement {
    Assignment(Reference, Expression),
    IndexedAssigment(IndexedAccessExpression, Expression),
    Expression(Expression),
}

/// The result of a write, as the outcome of the statement that made it.
pub open spec fn written(stored: Result<Frames, Failure>, frames: Frames) -> Outcome {
    match stored {
        Ok(after) => Outcome::done(Value::Unit, after),
        Err(failure) => Outcome::fail(failure, frames),
    }
}

/// The statements from `from` on are executed in order; the value of a list
/// is that of its last statement, or `last` where none is left. The first
/// failure ends the list.
pub open spec fn run_statements(
    statements: Seq<Statement>,
    from: nat,
    last: Value,
    frames: Frames,
    contracts: ContractMap,
    fuel: nat,
) -> Outcome
    decreases 4 * fuel + 3, statements, statements.len() - from,
{
    if from >= statements.len() {
        Outcome::done(last, frames)
    } else {
        let step = statements[from as int].evaluate(frames, contracts, fuel);
        match step.result {
            Err(_) => step,
            Ok(value) => run_statements(statements, from + 1, value, step.frames, contracts, fuel),
        }
    }
}

/// Executes the statements of a list in order. The value is that of the
/// last statement, or `last` where the list is empty; the first failure ends
/// the list.
#[verifier::loop_isolation(false)]
pub fn execute_statements(
    statements: &Vec<Statement>,
    last: Expression,
    context: &mut Context,
    fuel: u64,
) -> (r: Result<Expression, EvaluationError>)
    requires
        old(context).wf(),
        old(context)@.len() > 0,
        last.is_value(),
    ensures
        realizes(
            *old(context),
            *final(context),
            r,
            run_statements(
                statements@,
                0,
                last.value(),
                old(context)@,
                old(context).contracts(),
                fuel as nat,
            ),
        ),
    decreases 4 * fuel + 3, statements, 0nat,
{
    let ghost whole = run_statements(
        statements@,
        0,
        last.value(),
        old(context)@,
        old(context).contracts(),
        fuel as nat,
    );
    let mut result = last;
    let mut i: usize = 0;
    while i < statements.len()
        invariant
            i <= statements@.len(),
            context.wf(),
            context.contracts() == old(context).contracts(),
            context@.len() == old(context)@.len(),
            result.is_value(),
            run_statements(
                statements@,
                i as nat,
                result.value(),
                context@,
                context.contracts(),
                fuel as nat,
            ) == whole,
        decreases statements@.len() - i,
    {
        match statements[i].execute(context, fuel) {
            Ok(value) => {
                result = value;
            },
            Err(error) => {
                return Err(error);
            },
        }
        i += 1;
    }
    Ok(result)
}

impl Statement {
    /// Executes the statement: an assignment writes the value of its
    /// right-hand side and yields unit, an expression statement yields the
    /// value of its expression.
    pub fn execute(&self, context: &mut Context, fuel: u64) -> (r: Result<Expression, EvaluationError>)
        requires
            old(context).wf(),
            old(context)@.len() > 0,
        ensures
            realizes(
                *old(context),
                *final(context),
                r,
                self.evaluate(old(context)@, old(context).contracts(), fuel as nat),
            ),
        decreases 4 * fuel + 3, self, 0nat,
    {
        match self {
            Self::Assignment(reference, expression) => {
                let result = match expression.execute(context, fuel) {
                    Ok(value) => value,
                    Err(error) => {
                        return Err(error);
                    },
                };
                let written = context.insert_or_update_in_heap(reference, result);
                match written {
                    Ok(()) => Ok(Expression::Unit),
                    Err(error) => Err(error),
                }
            },
            Self::IndexedAssigment(key, value) => {
                let reference = match key.to_reference(context, fuel) {
                    Ok(reference) => reference,
                    Err(error) => {
                        return Err(error);
                    },
                };
                let right = value.execute(context, fuel);
                let result = match right {
                    Ok(value) => value,
                    Err(error) => {
                        return Err(error);
                    },
                };
                let written = context.insert_or_update_in_heap(&reference, result);
                match written {
                    Ok(()) => Ok(Expression::Unit),
                    Err(error) => Err(error),
                }
            },
            Self::Expression(expression) => expression.execute(context, fuel),
        }
    }

    /// An assignment evaluates its right-hand side, then writes, and yields
    /// unit; an indexed assignment evaluates the index before the right-hand
    /// side; an expression statement yields the value of its expression.
    pub open spec fn evaluate(self, frames: Frames, contracts: ContractMap, fuel: nat) -> Outcome
        decreases 4 * fuel + 3, self, 0nat,
    {
        match self {
            Statement::Assignment(reference, expression) => {
                let right = expression.evaluate(frames, contracts, fuel);
                match right.result {
                    Err(_) => right,
                    Ok(value) => written(store(right.frames, reference@, value), right.frames),
                }
            },
            Statement::IndexedAssigment(key, expression) => {
                let index = key.index.evaluate(frames, contracts, fuel);
                match index.result {
                    Err(_) => index,
                    Ok(Value::Integer(i)) => {
                        let right = expression.evaluate(index.frames, contracts, fuel);
                        match right.result {
                            Err(_) => right,
                            Ok(value) => written(
                                store(
                                    right.frames,
                                    Place::Element(key.variable@, i.as_usize_spec()),
                                    value,
                                ),
                                right.frames,
                            ),
                        }
                    },
                    Ok(other) => Outcome::fail(Failure::InvalidIndexExpression(other), index.frames),
                }
            },
            Statement::Expression(expression) => expression.evaluate(frames, contracts, fuel),
        }
    }
}

/// A copy of each statement of a list, in their order.
#[verifier::loop_isolation(false)]
pub fn clone_statements(statements: &Vec<Statement>) -> (r: Vec<Statement>)
    ensures
        r@.len() == statements@.len(),
    decreases statements, 0nat,
{
    let mut copies: Vec<Statement> = Vec::new();
    let mut i: usize = 0;
    while i < statements.len()
        invariant
            i <= statements@.len(),
            copies@.len() == i,
        decreases statements@.len() - i,
    {
        let copy = statements[i].clone();
        copies.push(copy);
        i += 1;
    }
    copies
}

impl Clone for Statement {
    fn clone(&self) -> (r: Self)
        decreases *self, 1nat,
    {
        match self {
            Statement::Assignment(reference, expression) => Statement::Assignment(
                reference.clone(),
                expression.clone(),
            ),
            Statement::IndexedAssigment(key, expression) => Statement::IndexedAssigment(
                key.clone(),
                expression.clone(),
            ),
            Statement::Expression(expression) => Statement::Expression(expression.clone()),
        }
    }
}

/// An empty statement list yields the value it was given, unit at the start
/// of a body, and leaves the environment as it is.
pub proof fn lemma_empty_list_yields_unit(frames: Frames, contracts: ContractMap, fuel: nat)
    ensures
        run_statements(Seq::empty(), 0, Value::Unit, frames, contracts, fuel) == Outcome::done(
            Value::Unit,
            frames,
        ),
{
}

} // verus!
