//! Conditionals.

use vstd::prelude::*;
use crate::expressions::statements::{Statement, clone_statements, execute_statements, run_statements};
use crate::expressions::Expression;
use crate::interpreter::context::{Context, ContractMap, realizes};
use crate::interpreter::error::EvaluationError;
use crate::interpreter::model::{
    Failure,
    Frames,
    MismatchContext,
    Outcome,
    Value,
};

verus! {

/// A conditional expression.
#[derive(Debug, PartialEq)]
pub enum Condition {
    If(If),
}

/// `if condition { statements } else else_clause`.
#[derive(Debug, PartialEq)]
pub struct If {
    pub statements: Vec<Statement>,
    pub else_clause: Option<Expression>,
    pub condition: Expression,
}

impl Condition {
    /// Executes the conditional.
    pub fn execute(&self, context: &mut Context, fuel: u64) -> (r: Result<Expression, EvaluationError>)
        requires
            old(context).wf(),
            old(context)@.len() > 0,
        ensures
            realizes(
                *old(context),
                *final(context),
                r,
                self.evaluate(old(context)@, old(context).contracts(), fuel as nat),
            ),
        decreases 4 * fuel + 3, self, 0nat,
    {
        match self {
            Self::If(condition) => condition.execute(context, fuel),
        }
    }

    /// The meaning of the conditional.
    pub open spec fn evaluate(self, frames: Frames, contracts: ContractMap, fuel: nat) -> Outcome
        decreases 4 * fuel + 3, self, 0nat,
    {
        match self {
            Condition::If(condition) => condition.evaluate(frames, contracts, fuel),
        }
    }
}

impl If {
    /// Evaluates the condition, which must be a boolean, and then the branch
    /// that it selects.
    pub fn execute(&self, context: &mut Context, fuel: u64) -> (r: Result<Expression, EvaluationError>)
        requires
            old(context).wf(),
            old(context)@.len() > 0,
        ensures
            realizes(
                *old(context),
                *final(context),
                r,
                self.evaluate(old(context)@, old(context).contracts(), fuel as nat),
            ),
        decreases 4 * fuel + 3, self, 0nat,
    {
        let condition = match self.condition.execute(context, fuel) {
            Ok(value) => value,
            Err(error) => {
                return Err(error);
            },
        };
        let result = match condition {
            Expression::Bool(true) => execute_statements(
                &self.statements,
                Expression::Unit,
                context,
                fuel,
            ),
            Expression::Bool(false) => match &self.else_clause {
                Some(else_clause) => else_clause.execute(context, fuel),
                None => Ok(Expression::Unit),
            },
            other => Err(EvaluationError::TypeMismatch(MismatchContext::IfCondition, other)),
        };
        result
    }

    /// The condition must be a boolean. On `true` the statements run in the
    /// frame in which the conditional stands; on `false` the else clause is
    /// evaluated, or the result is unit where there is none.
    pub open spec fn evaluate(self, frames: Frames, contracts: ContractMap, fuel: nat) -> Outcome
        decreases 4 * fuel + 3, self, 0nat,
    {
        let condition = self.condition.evaluate(frames, contracts, fuel);
        match condition.result {
            Err(_) => condition,
            Ok(Value::Bool(true)) => run_statements(
                self.statements@,
                0,
                Value::Unit,
                condition.frames,
                contracts,
                fuel,
            ),
            Ok(Value::Bool(false)) => match self.else_clause {
                Some(otherwise) => otherwise.evaluate(condition.frames, contracts, fuel),
                None => Outcome::done(Value::Unit, condition.frames),
            },
            Ok(other) => Outcome::fail(
                Failure::TypeMismatch(MismatchContext::IfCondition, other),
                condition.frames,
            ),
        }
    }
}

impl Clone for Condition {
    fn clone(&self) -> (r: Self)
        decreases *self,
    {
        match self {
            Condition::If(condition) => Condition::If(condition.clone()),
        }
    }
}

impl Clone for If {
    fn clone(&self) -> (r: Self)
        ensures
            r.statements@.len() == self.statements@.len(),
        decreases *self,
    {
        If {
            statements: clone_statements(&self.statements),
            else_clause: match &self.else_clause {
                Some(otherwise) => Some(otherwise.clone()),
                None => None,
            },
            condition: self.condition.clone(),
        }
    }
}

} // verus!
