//! The failures of an evaluation.

use vstd::prelude::*;
use crate::expressions::operation::OperationKind;
use crate::expressions::Expression;
use crate::interpreter::model::{Failure, Frames, MismatchContext, Value, ValueKind};

verus! {

/// Why an evaluation stopped. Nothing is recovered from: every error ends
/// the evaluation in flight.
#[derive(Debug, PartialEq)]
pub enum EvaluationError {
    /// The name is bound in no frame.
    UnknownReference(String),
    /// The index is beyond the length of the vector that the name is bound to.
    IndexOutOfRange(String, usize),
    /// The index of an indexed access evaluated to this, which is no integer.
    InvalidIndexExpression(Expression),
    /// The name of an indexed read or write is bound to something that is no
    /// vector.
    NotIndexable(String),
    /// The condition of the construct evaluated to this, which is no boolean.
    TypeMismatch(MismatchContext, Expression),
    /// The bounds of a range evaluated to these, which are not both integers.
    InvalidRange(Expression, Expression),
    /// The operator has no entry for operands of these kinds.
    UnsupportedOperation(OperationKind, ValueKind, ValueKind),
    /// The function declares the first number of parameters and was given
    /// the second number of arguments.
    ArityMismatch(usize, usize),
    /// Under the tag, the named condition returned `false`.
    ContractFailed(String, String),
    /// Under the tag, the named condition returned this, which is no boolean.
    ContractTypeError(String, String, Expression),
    /// The method is not defined for this receiver.
    InvalidMethod(String, Expression),
    /// A slot of a vector cannot be bound like a variable.
    InvalidBinding(String, usize),
    /// The host arithmetic would have trapped on overflow.
    ArithmeticOverflow(OperationKind),
    /// The host arithmetic would have trapped on a zero divisor.
    DivisionByZero,
    /// A loop ran, or contract conditions nested, beyond the bound given to
    /// the evaluation.
    FuelExhausted,
}

impl View for EvaluationError {
    type V = Failure;

    open spec fn view(&self) -> Failure {
        match self {
            EvaluationError::UnknownReference(name) => Failure::UnknownReference(name@),
            EvaluationError::IndexOutOfRange(name, index) => Failure::IndexOutOfRange(name@, *index),
            EvaluationError::InvalidIndexExpression(found) => Failure::InvalidIndexExpression(
                found.value(),
            ),
            EvaluationError::NotIndexable(name) => Failure::NotIndexable(name@),
            EvaluationError::TypeMismatch(context, found) => Failure::TypeMismatch(
                *context,
                found.value(),
            ),
            EvaluationError::InvalidRange(start, end) => Failure::InvalidRange(
                start.value(),
                end.value(),
            ),
            EvaluationError::UnsupportedOperation(kind, left, right) => Failure::UnsupportedOperation(
                *kind,
                *left,
                *right,
            ),
            EvaluationError::ArityMismatch(declared, supplied) => Failure::ArityMismatch(
                *declared as nat,
                *supplied as nat,
            ),
            EvaluationError::ContractFailed(tag, name) => Failure::ContractFailed(tag@, name@),
            EvaluationError::ContractTypeError(tag, name, found) => Failure::ContractTypeError(
                tag@,
                name@,
                found.value(),
            ),
            EvaluationError::InvalidMethod(method, receiver) => Failure::InvalidMethod(
                method@,
                receiver.value(),
            ),
            EvaluationError::InvalidBinding(name, index) => Failure::InvalidBinding(name@, *index),
            EvaluationError::ArithmeticOverflow(kind) => Failure::ArithmeticOverflow(*kind),
            EvaluationError::DivisionByZero => Failure::DivisionByZero,
            EvaluationError::FuelExhausted => Failure::FuelExhausted,
        }
    }
}

impl EvaluationError {
    /// Whatever the error reports as found is a literal form.
    pub open spec fn wf(self) -> bool {
        match self {
            EvaluationError::InvalidIndexExpression(found) => found.is_value(),
            EvaluationError::TypeMismatch(_, found) => found.is_value(),
            EvaluationError::InvalidRange(start, end) => start.is_value() && end.is_value(),
            EvaluationError::ContractTypeError(_, _, found) => found.is_value(),
            EvaluationError::InvalidMethod(_, receiver) => receiver.is_value(),
            _ => true,
        }
    }
}

/// The executed result is the expected one: a literal form that stands for
/// the expected value, or the expected failure.
pub open spec fn agrees(
    result: Result<Expression, EvaluationError>,
    expected: Result<Value, Failure>,
) -> bool {
    match result {
        Ok(found) => found.is_value() && expected == Ok::<Value, Failure>(found.value()),
        Err(error) => error.wf() && expected == Err::<Value, Failure>(error@),
    }
}

/// The executed write is the expected one: the environment is the expected
/// one, or it is unchanged and the error is the expected failure.
pub open spec fn settles(
    result: Result<(), EvaluationError>,
    before: Frames,
    after: Frames,
    expected: Result<Frames, Failure>,
) -> bool {
    match expected {
        Ok(frames) => result is Ok && after == frames,
        Err(failure) => after == before && (result matches Err(error) && error.wf() && error@
            == failure),
    }
}

} // verus!
