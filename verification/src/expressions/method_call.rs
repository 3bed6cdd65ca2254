//! Method calls on evaluated receivers.

use vstd::prelude::*;
use crate::expressions::integer::Integer;
use crate::expressions::{Expression, clone_expressions, lemma_vector_value};
use crate::interpreter::context::{Context, ContractMap, realizes};
use crate::interpreter::error::{EvaluationError, agrees};
use vstd::string::StringExecFns;
use crate::interpreter::model::{Failure, Frames, Outcome, Value};

verus! {

/// A method invoked on the value of an expression.
#[derive(Debug, PartialEq)]
pub struct MethodCall {
    pub expression: Box<Expression>,
    pub method: String,
    pub args: Vec<Expression>,
}

/// What `method` makes of `receiver`: the length of a vector, and nothing
/// else.
pub open spec fn method_result(receiver: Value, method: Seq<char>) -> Result<Value, Failure> {
    match receiver {
        Value::Vector(items) if method == "len"@ => Ok(
            Value::Integer(Integer::Usize(items.len() as usize)),
        ),
        _ => Err(Failure::InvalidMethod(method, receiver)),
    }
}

/// Applies `method` to an evaluated receiver: `len` gives the length of a
/// vector; nothing else is defined.
pub fn execute_method(expression: Expression, method: &String, args: &Vec<Expression>) -> (r: Result<
    Expression,
    EvaluationError,
>)
    requires
        expression.is_value(),
    ensures
        agrees(r, method_result(expression.value(), method@)),
{
    let length = String::from_str("len");
    match expression {
        Expression::Vector(items) => {
            proof {
                lemma_vector_value(items);
            }
            if *method == length {
                Ok(Expression::Integer(Integer::Usize(items.len())))
            } else {
                Err(EvaluationError::InvalidMethod(method.clone(), Expression::Vector(items)))
            }
        },
        other => Err(EvaluationError::InvalidMethod(method.clone(), other)),
    }
}

impl MethodCall {
    /// Evaluates the receiver and applies the method to its value.
    pub fn execute(&self, context: &mut Context, fuel: u64) -> (r: Result<Expression, EvaluationError>)
        requires
            old(context).wf(),
            old(context)@.len() > 0,
        ensures
            realizes(
                *old(context),
                *final(context),
                r,
                self.evaluate(old(context)@, old(context).contracts(), fuel as nat),
            ),
        decreases 4 * fuel + 3, self, 0nat,
    {
        let expression = match self.expression.execute(context, fuel) {
            Ok(value) => value,
            Err(error) => {
                return Err(error);
            },
        };
        execute_method(expression, &self.method, &self.args)
    }

    /// The receiver is evaluated and the method applied to its value; the
    /// arguments are not looked at.
    pub open spec fn evaluate(self, frames: Frames, contracts: ContractMap, fuel: nat) -> Outcome
        decreases 4 * fuel + 3, self, 0nat,
    {
        let receiver = self.expression.evaluate(frames, contracts, fuel);
        match receiver.result {
            Err(_) => receiver,
            Ok(value) => Outcome { result: method_result(value, self.method@), frames: receiver.frames },
        }
    }
}

impl Clone for MethodCall {
    fn clone(&self) -> (r: Self)
        ensures
            r.method@ == self.method@,
        decreases *self,
    {
        let expression: Expression = (*self.expression).clone();
        MethodCall {
            expression: Box::new(expression),
            method: self.method.clone(),
            args: clone_expressions(&self.args),
        }
    }
}

} // verus!
