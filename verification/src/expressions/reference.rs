//! References to bindings and to the slots of vector-valued bindings.

use vstd::prelude::*;
use crate::expressions::Expression;
use crate::interpreter::context::{Context, ContractMap, realizes};
use crate::interpreter::error::{EvaluationError, agrees};
use crate::interpreter::model::{Failure, Frames, Outcome, Place, Value, resolve};

verus! {

/// A name for a binding, or for one slot of a vector-valued binding.
#[derive(Debug, PartialEq, Eq, Hash)]
pub enum Reference {
    Variable(String),
    IndexedAccess(String, usize),
}

impl View for Reference {
    type V = Place;

    open spec fn view(&self) -> Place {
        match self {
            Reference::Variable(name) => Place::Variable(name@),
            Reference::IndexedAccess(name, index) => Place::Element(name@, *index),
        }
    }
}

impl Reference {
    /// Reads through the reference and hands out a copy of what it names.
    pub fn execute(&self, context: &mut Context) -> (r: Result<Expression, EvaluationError>)
        requires
            old(context).wf(),
        ensures
            *final(context) == *old(context),
            agrees(r, resolve(old(context)@, self@)),
    {
        match context.search_reference(self) {
            Ok(expression) => Ok(expression.duplicate()),
            Err(error) => Err(error),
        }
    }
}

/// A slot of a vector-valued binding whose index is still to be evaluated.
#[derive(Debug, PartialEq)]
pub struct IndexedAccessExpression {
    pub variable: String,
    pub index: Box<Expression>,
}

impl IndexedAccessExpression {
    /// What the evaluation of the index makes of the access: the slot to
    /// read or write, or the failure.
    pub open spec fn located(self, frames: Frames, contracts: ContractMap, fuel: nat) -> Result<
        Place,
        Failure,
    > {
        match self.index.evaluate(frames, contracts, fuel).result {
            Err(failure) => Err(failure),
            Ok(Value::Integer(i)) => Ok(Place::Element(self.variable@, i.as_usize_spec())),
            Ok(other) => Err(Failure::InvalidIndexExpression(other)),
        }
    }

    /// Evaluates the index, which must be an integer, and reads the slot
    /// that it names.
    pub fn execute(&self, context: &mut Context, fuel: u64) -> (r: Result<Expression, EvaluationError>)
        requires
            old(context).wf(),
            old(context)@.len() > 0,
        ensures
            realizes(
                *old(context),
                *final(context),
                r,
                self.evaluate(old(context)@, old(context).contracts(), fuel as nat),
            ),
        decreases 4 * fuel + 3, self, 1nat,
    {
        match self.to_reference(context, fuel) {
            Ok(reference) => reference.execute(context),
            Err(error) => Err(error),
        }
    }

    /// Evaluates the index, which must be an integer, and names the slot.
    pub fn to_reference(&self, context: &mut Context, fuel: u64) -> (r: Result<
        Reference,
        EvaluationError,
    >)
        requires
            old(context).wf(),
            old(context)@.len() > 0,
        ensures
            final(context).wf(),
            final(context).contracts() == old(context).contracts(),
            final(context)@.len() == old(context)@.len(),
            final(context)@ == self.index.evaluate(
                old(context)@,
                old(context).contracts(),
                fuel as nat,
            ).frames,
            match r {
                Ok(reference) => self.located(old(context)@, old(context).contracts(), fuel as nat)
                    == Ok::<Place, Failure>(reference@),
                Err(error) => error.wf() && self.located(
                    old(context)@,
                    old(context).contracts(),
                    fuel as nat,
                ) == Err::<Place, Failure>(error@),
            },
        decreases 4 * fuel + 3, self, 0nat,
    {
        match self.index.execute(context, fuel) {
            Ok(index) => match index {
                Expression::Integer(i) => Ok(
                    Reference::IndexedAccess(self.variable.clone(), i.as_usize()),
                ),
                other => Err(EvaluationError::InvalidIndexExpression(other)),
            },
            Err(error) => Err(error),
        }
    }

    /// The index is evaluated first and must be an integer; the slot it
    /// names is then read.
    pub open spec fn evaluate(self, frames: Frames, contracts: ContractMap, fuel: nat) -> Outcome
        decreases 4 * fuel + 3, self, 0nat,
    {
        let index = self.index.evaluate(frames, contracts, fuel);
        match index.result {
            Err(_) => index,
            Ok(Value::Integer(i)) => Outcome {
                result: resolve(index.frames, Place::Element(self.variable@, i.as_usize_spec())),
                frames: index.frames,
            },
            Ok(other) => Outcome::fail(Failure::InvalidIndexExpression(other), index.frames),
        }
    }
}

impl Clone for Reference {
    fn clone(&self) -> (r: Self)
        ensures
            r@ == self@,
    {
        match self {
            Reference::Variable(name) => Reference::Variable(name.clone()),
            Reference::IndexedAccess(name, index) => Reference::IndexedAccess(name.clone(), *index),
        }
    }
}

impl Clone for IndexedAccessExpression {
    fn clone(&self) -> (r: Self)
        ensures
            r.variable@ == self.variable@,
        decreases *self,
    {
        let index: Expression = (*self.index).clone();
        IndexedAccessExpression { variable: self.variable.clone(), index: Box::new(index) }
    }
}

} // verus!
