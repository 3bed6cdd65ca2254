//! Binary operations and their typed dispatch table.

use vstd::prelude::*;
use crate::expressions::Expression;
use crate::interpreter::context::{Context, ContractMap, realizes};
use crate::interpreter::error::{EvaluationError, agrees};
use crate::interpreter::model::{Failure, Frames, Outcome, Value};
use vstd::string::StringExecFns;

verus! {

/// A binary operation on two operand expressions.
#[derive(Debug, PartialEq)]
pub enum Operation {
    Add(Expression, Expression),
    Sub(Expression, Expression),
    Div(Expression, Expression),
    Mul(Expression, Expression),
    BitAnd(Expression, Expression),
    BitOr(Expression, Expression),
    And(Expression, Expression),
    Or(Expression, Expression),
    Eq(Expression, Expression),
    Ne(Expression, Expression),
    Lt(Expression, Expression),
    Lte(Expression, Expression),
    Gt(Expression, Expression),
    Gte(Expression, Expression),
}

/// Which of the fourteen operators an operation is.
#[derive(Debug, Clone, Copy, PartialEq, Eq)]
pub enum OperationKind {
    Add,
    Sub,
    Div,
    Mul,
    BitAnd,
    BitOr,
    And,
    Or,
    Eq,
    Ne,
    Lt,
    Lte,
    Gt,
    Gte,
}

/// The result of an arithmetic operator that the host carries out with a
/// trap on overflow.
pub open spec fn arithmetic(kind: OperationKind, outcome: Option<crate::expressions::Integer>) -> Result<
    Value,
    Failure,
> {
    match outcome {
        Some(i) => Ok(Value::Integer(i)),
        None => Err(Failure::ArithmeticOverflow(kind)),
    }
}

/// Equality of two values, where the operand pair supports it.
pub open spec fn equality(a: Value, b: Value) -> Option<bool> {
    match (a, b) {
        (Value::Integer(x), Value::Integer(y)) => Some(x.equals(y)),
        (Value::Bool(x), Value::Bool(y)) => Some(x == y),
        _ => None,
    }
}

/// Strict order of two values, where the operand pair supports it.
pub open spec fn order(a: Value, b: Value) -> Option<bool> {
    match (a, b) {
        (Value::Integer(x), Value::Integer(y)) => Some(x.precedes(y)),
        (Value::Bool(x), Value::Bool(y)) => Some(!x && y),
        _ => None,
    }
}

/// The operand pair is not in the operator's table.
pub open spec fn unsupported(kind: OperationKind, a: Value, b: Value) -> Result<Value, Failure> {
    Err(Failure::UnsupportedOperation(kind, a.kind(), b.kind()))
}

/// A comparison built from equality and strict order.
pub open spec fn comparison(
    kind: OperationKind,
    a: Value,
    b: Value,
    verdict: Option<bool>,
) -> Result<Value, Failure> {
    match verdict {
        Some(v) => Ok(Value::Bool(v)),
        None => unsupported(kind, a, b),
    }
}

/// The operator's typed dispatch table: what `kind` makes of two values.
pub open spec fn apply(kind: OperationKind, a: Value, b: Value) -> Result<Value, Failure> {
    match kind {
        OperationKind::Add => match (a, b) {
            (Value::Integer(x), Value::Integer(y)) => arithmetic(kind, x.sum(y)),
            (Value::Text(x), Value::Text(y)) => Ok(Value::Text(x + y)),
            (Value::Text(x), Value::Char(c)) => Ok(Value::Text(x.push(c))),
            (Value::Char(c), Value::Text(y)) => Ok(Value::Text(seq![c] + y)),
            _ => unsupported(kind, a, b),
        },
        OperationKind::Sub => match (a, b) {
            (Value::Integer(x), Value::Integer(y)) => arithmetic(kind, x.difference(y)),
            _ => unsupported(kind, a, b),
        },
        OperationKind::Mul => match (a, b) {
            (Value::Integer(x), Value::Integer(y)) => arithmetic(kind, x.product(y)),
            _ => unsupported(kind, a, b),
        },
        OperationKind::Div => match (a, b) {
            (Value::Integer(x), Value::Integer(y)) => if x.right(y) == 0 {
                Err(Failure::DivisionByZero)
            } else {
                arithmetic(kind, x.quotient(y))
            },
            _ => unsupported(kind, a, b),
        },
        OperationKind::BitAnd => match (a, b) {
            (Value::Integer(x), Value::Integer(y)) => Ok(Value::Integer(x.conjunction(y))),
            _ => unsupported(kind, a, b),
        },
        OperationKind::BitOr => match (a, b) {
            (Value::Integer(x), Value::Integer(y)) => Ok(Value::Integer(x.disjunction(y))),
            _ => unsupported(kind, a, b),
        },
        OperationKind::And => match (a, b) {
            (Value::Bool(x), Value::Bool(y)) => Ok(Value::Bool(x && y)),
            _ => unsupported(kind, a, b),
        },
        OperationKind::Or => match (a, b) {
            (Value::Bool(x), Value::Bool(y)) => Ok(Value::Bool(x || y)),
            _ => unsupported(kind, a, b),
        },
        OperationKind::Eq => comparison(kind, a, b, equality(a, b)),
        OperationKind::Ne => comparison(
            kind,
            a,
            b,
            match equality(a, b) {
                Some(e) => Some(!e),
                None => None,
            },
        ),
        OperationKind::Lt => comparison(kind, a, b, order(a, b)),
        OperationKind::Lte => comparison(
            kind,
            a,
            b,
            match (equality(a, b), order(a, b)) {
                (Some(e), Some(l)) => Some(e || l),
                _ => None,
            },
        ),
        OperationKind::Gt => comparison(
            kind,
            a,
            b,
            match (equality(a, b), order(a, b)) {
                (Some(e), Some(l)) => Some(!e && !l),
                _ => None,
            },
        ),
        OperationKind::Gte => comparison(
            kind,
            a,
            b,
            match order(a, b) {
                Some(l) => Some(!l),
                None => None,
            },
        ),
    }
}

fn arithmetic_result(kind: OperationKind, outcome: Option<crate::expressions::Integer>) -> (r: Result<
    Expression,
    EvaluationError,
>)
    ensures
        agrees(r, arithmetic(kind, outcome)),
{
    match outcome {
        Some(i) => Ok(Expression::Integer(i)),
        None => Err(EvaluationError::ArithmeticOverflow(kind)),
    }
}

fn unsupported_pair(kind: OperationKind, lhs: &Expression, rhs: &Expression) -> (r: Result<
    Expression,
    EvaluationError,
>)
    requires
        lhs.is_value(),
        rhs.is_value(),
    ensures
        agrees(r, unsupported(kind, lhs.value(), rhs.value())),
{
    Err(EvaluationError::UnsupportedOperation(kind, lhs.kind(), rhs.kind()))
}

fn comparison_result(kind: OperationKind, lhs: &Expression, rhs: &Expression, verdict: Option<bool>) -> (r:
    Result<Expression, EvaluationError>)
    requires
        lhs.is_value(),
        rhs.is_value(),
    ensures
        agrees(r, comparison(kind, lhs.value(), rhs.value(), verdict)),
{
    match verdict {
        Some(v) => Ok(Expression::Bool(v)),
        None => unsupported_pair(kind, lhs, rhs),
    }
}

fn equal_values(lhs: &Expression, rhs: &Expression) -> (r: Option<bool>)
    requires
        lhs.is_value(),
        rhs.is_value(),
    ensures
        r == equality(lhs.value(), rhs.value()),
{
    match (lhs, rhs) {
        (Expression::Integer(a), Expression::Integer(b)) => Some(a.is_equal(b)),
        (Expression::Bool(a), Expression::Bool(b)) => Some(*a == *b),
        _ => None,
    }
}

fn ordered_values(lhs: &Expression, rhs: &Expression) -> (r: Option<bool>)
    requires
        lhs.is_value(),
        rhs.is_value(),
    ensures
        r == order(lhs.value(), rhs.value()),
{
    match (lhs, rhs) {
        (Expression::Integer(a), Expression::Integer(b)) => Some(a.is_less(b)),
        (Expression::Bool(a), Expression::Bool(b)) => Some(!*a && *b),
        _ => None,
    }
}

/// Addition: integers add, strings concatenate, and a character joins a
/// string on either side.
pub fn add(lhs: Expression, rhs: Expression) -> (r: Result<Expression, EvaluationError>)
    requires
        lhs.is_value(),
        rhs.is_value(),
    ensures
        agrees(r, apply(OperationKind::Add, lhs.value(), rhs.value())),
{
    match (lhs, rhs) {
        (Expression::Integer(a), Expression::Integer(b)) => arithmetic_result(
            OperationKind::Add,
            a.checked_add(b),
        ),
        (Expression::String(a), Expression::String(b)) => {
            let mut text = a;
            text.append(b.as_str());
            Ok(Expression::String(text))
        },
        (Expression::String(a), Expression::Char(c)) => {
            let mut text = a;
            text.push(c);
            Ok(Expression::String(text))
        },
        (Expression::Char(c), Expression::String(b)) => {
            let mut text = String::new();
            text.push(c);
            text.append(b.as_str());
            assert(text@ =~= seq![c] + b@);
            Ok(Expression::String(text))
        },
        (a, b) => unsupported_pair(OperationKind::Add, &a, &b),
    }
}

/// Subtraction of integers.
pub fn sub(lhs: Expression, rhs: Expression) -> (r: Result<Expression, EvaluationError>)
    requires
        lhs.is_value(),
        rhs.is_value(),
    ensures
        agrees(r, apply(OperationKind::Sub, lhs.value(), rhs.value())),
{
    match (lhs, rhs) {
        (Expression::Integer(a), Expression::Integer(b)) => arithmetic_result(
            OperationKind::Sub,
            a.checked_sub(b),
        ),
        (a, b) => unsupported_pair(OperationKind::Sub, &a, &b),
    }
}

/// Multiplication of integers.
pub fn mul(lhs: Expression, rhs: Expression) -> (r: Result<Expression, EvaluationError>)
    requires
        lhs.is_value(),
        rhs.is_value(),
    ensures
        agrees(r, apply(OperationKind::Mul, lhs.value(), rhs.value())),
{
    match (lhs, rhs) {
        (Expression::Integer(a), Expression::Integer(b)) => arithmetic_result(
            OperationKind::Mul,
            a.checked_mul(b),
        ),
        (a, b) => unsupported_pair(OperationKind::Mul, &a, &b),
    }
}

/// Division of integers, rounded toward zero.
pub fn div(lhs: Expression, rhs: Expression) -> (r: Result<Expression, EvaluationError>)
    requires
        lhs.is_value(),
        rhs.is_value(),
    ensures
        agrees(r, apply(OperationKind::Div, lhs.value(), rhs.value())),
{
    match (lhs, rhs) {
        (Expression::Integer(a), Expression::Integer(b)) => {
            if a.divisor_is_zero(b) {
                Err(EvaluationError::DivisionByZero)
            } else {
                arithmetic_result(OperationKind::Div, a.checked_div(b))
            }
        },
        (a, b) => unsupported_pair(OperationKind::Div, &a, &b),
    }
}

/// Bitwise conjunction of integers.
pub fn bitand(lhs: Expression, rhs: Expression) -> (r: Result<Expression, EvaluationError>)
    requires
        lhs.is_value(),
        rhs.is_value(),
    ensures
        agrees(r, apply(OperationKind::BitAnd, lhs.value(), rhs.value())),
{
    match (lhs, rhs) {
        (Expression::Integer(a), Expression::Integer(b)) => Ok(Expression::Integer(a.bit_and(b))),
        (a, b) => unsupported_pair(OperationKind::BitAnd, &a, &b),
    }
}

/// Bitwise disjunction of integers.
pub fn bitor(lhs: Expression, rhs: Expression) -> (r: Result<Expression, EvaluationError>)
    requires
        lhs.is_value(),
        rhs.is_value(),
    ensures
        agrees(r, apply(OperationKind::BitOr, lhs.value(), rhs.value())),
{
    match (lhs, rhs) {
        (Expression::Integer(a), Expression::Integer(b)) => Ok(Expression::Integer(a.bit_or(b))),
        (a, b) => unsupported_pair(OperationKind::BitOr, &a, &b),
    }
}

/// Conjunction of booleans; both operands have been evaluated.
pub fn and(lhs: Expression, rhs: Expression) -> (r: Result<Expression, EvaluationError>)
    requires
        lhs.is_value(),
        rhs.is_value(),
    ensures
        agrees(r, apply(OperationKind::And, lhs.value(), rhs.value())),
{
    match (lhs, rhs) {
        (Expression::Bool(a), Expression::Bool(b)) => Ok(Expression::Bool(a && b)),
        (a, b) => unsupported_pair(OperationKind::And, &a, &b),
    }
}

/// Disjunction of booleans; both operands have been evaluated.
pub fn or(lhs: Expression, rhs: Expression) -> (r: Result<Expression, EvaluationError>)
    requires
        lhs.is_value(),
        rhs.is_value(),
    ensures
        agrees(r, apply(OperationKind::Or, lhs.value(), rhs.value())),
{
    match (lhs, rhs) {
        (Expression::Bool(a), Expression::Bool(b)) => Ok(Expression::Bool(a || b)),
        (a, b) => unsupported_pair(OperationKind::Or, &a, &b),
    }
}

/// Equality of two integers or two booleans.
pub fn eq(lhs: &Expression, rhs: &Expression) -> (r: Result<Expression, EvaluationError>)
    requires
        lhs.is_value(),
        rhs.is_value(),
    ensures
        agrees(r, apply(OperationKind::Eq, lhs.value(), rhs.value())),
{
    comparison_result(OperationKind::Eq, lhs, rhs, equal_values(lhs, rhs))
}

/// The negation of equality, on the same operand pairs.
pub fn ne(lhs: &Expression, rhs: &Expression) -> (r: Result<Expression, EvaluationError>)
    requires
        lhs.is_value(),
        rhs.is_value(),
    ensures
        agrees(r, apply(OperationKind::Ne, lhs.value(), rhs.value())),
{
    let verdict = match equal_values(lhs, rhs) {
        Some(e) => Some(!e),
        None => None,
    };
    comparison_result(OperationKind::Ne, lhs, rhs, verdict)
}

/// Strict order of two integers or two booleans, `false` before `true`.
pub fn lt(lhs: &Expression, rhs: &Expression) -> (r: Result<Expression, EvaluationError>)
    requires
        lhs.is_value(),
        rhs.is_value(),
    ensures
        agrees(r, apply(OperationKind::Lt, lhs.value(), rhs.value())),
{
    comparison_result(OperationKind::Lt, lhs, rhs, ordered_values(lhs, rhs))
}

/// Equal or less, on the same operand pairs.
pub fn lte(lhs: &Expression, rhs: &Expression) -> (r: Result<Expression, EvaluationError>)
    requires
        lhs.is_value(),
        rhs.is_value(),
    ensures
        agrees(r, apply(OperationKind::Lte, lhs.value(), rhs.value())),
{
    let verdict = match (equal_values(lhs, rhs), ordered_values(lhs, rhs)) {
        (Some(e), Some(l)) => Some(e || l),
        _ => None,
    };
    comparison_result(OperationKind::Lte, lhs, rhs, verdict)
}

/// Neither equal nor less, on the same operand pairs.
pub fn gt(lhs: &Expression, rhs: &Expression) -> (r: Result<Expression, EvaluationError>)
    requires
        lhs.is_value(),
        rhs.is_value(),
    ensures
        agrees(r, apply(OperationKind::Gt, lhs.value(), rhs.value())),
{
    let verdict = match (equal_values(lhs, rhs), ordered_values(lhs, rhs)) {
        (Some(e), Some(l)) => Some(!e && !l),
        _ => None,
    };
    comparison_result(OperationKind::Gt, lhs, rhs, verdict)
}

/// Not less, on the same operand pairs.
pub fn gte(lhs: &Expression, rhs: &Expression) -> (r: Result<Expression, EvaluationError>)
    requires
        lhs.is_value(),
        rhs.is_value(),
    ensures
        agrees(r, apply(OperationKind::Gte, lhs.value(), rhs.value())),
{
    let verdict = match ordered_values(lhs, rhs) {
        Some(l) => Some(!l),
        None => None,
    };
    comparison_result(OperationKind::Gte, lhs, rhs, verdict)
}

impl Operation {
    /// Which operator this is.
    pub open spec fn kind_spec(&self) -> OperationKind {
        match self {
            Operation::Add(_, _) => OperationKind::Add,
            Operation::Sub(_, _) => OperationKind::Sub,
            Operation::Div(_, _) => OperationKind::Div,
            Operation::Mul(_, _) => OperationKind::Mul,
            Operation::BitAnd(_, _) => OperationKind::BitAnd,
            Operation::BitOr(_, _) => OperationKind::BitOr,
            Operation::And(_, _) => OperationKind::And,
            Operation::Or(_, _) => OperationKind::Or,
            Operation::Eq(_, _) => OperationKind::Eq,
            Operation::Ne(_, _) => OperationKind::Ne,
            Operation::Lt(_, _) => OperationKind::Lt,
            Operation::Lte(_, _) => OperationKind::Lte,
            Operation::Gt(_, _) => OperationKind::Gt,
            Operation::Gte(_, _) => OperationKind::Gte,
        }
    }

    /// The left operand.
    pub open spec fn left_spec(&self) -> &Expression {
        match self {
            Operation::Add(l, _) => l,
            Operation::Sub(l, _) => l,
            Operation::Div(l, _) => l,
            Operation::Mul(l, _) => l,
            Operation::BitAnd(l, _) => l,
            Operation::BitOr(l, _) => l,
            Operation::And(l, _) => l,
            Operation::Or(l, _) => l,
            Operation::Eq(l, _) => l,
            Operation::Ne(l, _) => l,
            Operation::Lt(l, _) => l,
            Operation::Lte(l, _) => l,
            Operation::Gt(l, _) => l,
            Operation::Gte(l, _) => l,
        }
    }

    /// The right operand.
    pub open spec fn right_spec(&self) -> &Expression {
        match self {
            Operation::Add(_, r) => r,
            Operation::Sub(_, r) => r,
            Operation::Div(_, r) => r,
            Operation::Mul(_, r) => r,
            Operation::BitAnd(_, r) => r,
            Operation::BitOr(_, r) => r,
            Operation::And(_, r) => r,
            Operation::Or(_, r) => r,
            Operation::Eq(_, r) => r,
            Operation::Ne(_, r) => r,
            Operation::Lt(_, r) => r,
            Operation::Lte(_, r) => r,
            Operation::Gt(_, r) => r,
            Operation::Gte(_, r) => r,
        }
    }

    /// Which operator this is.
    #[verifier::when_used_as_spec(kind_spec)]
    pub fn kind(&self) -> (r: OperationKind)
        ensures
            r == self.kind_spec(),
    {
        match self {
            Operation::Add(_, _) => OperationKind::Add,
            Operation::Sub(_, _) => OperationKind::Sub,
            Operation::Div(_, _) => OperationKind::Div,
            Operation::Mul(_, _) => OperationKind::Mul,
            Operation::BitAnd(_, _) => OperationKind::BitAnd,
            Operation::BitOr(_, _) => OperationKind::BitOr,
            Operation::And(_, _) => OperationKind::And,
            Operation::Or(_, _) => OperationKind::Or,
            Operation::Eq(_, _) => OperationKind::Eq,
            Operation::Ne(_, _) => OperationKind::Ne,
            Operation::Lt(_, _) => OperationKind::Lt,
            Operation::Lte(_, _) => OperationKind::Lte,
            Operation::Gt(_, _) => OperationKind::Gt,
            Operation::Gte(_, _) => OperationKind::Gte,
        }
    }

    /// The left operand.
    #[verifier::when_used_as_spec(left_spec)]
    pub fn lhs(&self) -> (r: &Expression)
        ensures
            r == self.left_spec(),
    {
        match self {
            Operation::Add(l, _) => l,
            Operation::Sub(l, _) => l,
            Operation::Div(l, _) => l,
            Operation::Mul(l, _) => l,
            Operation::BitAnd(l, _) => l,
            Operation::BitOr(l, _) => l,
            Operation::And(l, _) => l,
            Operation::Or(l, _) => l,
            Operation::Eq(l, _) => l,
            Operation::Ne(l, _) => l,
            Operation::Lt(l, _) => l,
            Operation::Lte(l, _) => l,
            Operation::Gt(l, _) => l,
            Operation::Gte(l, _) => l,
        }
    }

    /// The right operand.
    #[verifier::when_used_as_spec(right_spec)]
    pub fn rhs(&self) -> (r: &Expression)
        ensures
            r == self.right_spec(),
    {
        match self {
            Operation::Add(_, r) => r,
            Operation::Sub(_, r) => r,
            Operation::Div(_, r) => r,
            Operation::Mul(_, r) => r,
            Operation::BitAnd(_, r) => r,
            Operation::BitOr(_, r) => r,
            Operation::And(_, r) => r,
            Operation::Or(_, r) => r,
            Operation::Eq(_, r) => r,
            Operation::Ne(_, r) => r,
            Operation::Lt(_, r) => r,
            Operation::Lte(_, r) => r,
            Operation::Gt(_, r) => r,
            Operation::Gte(_, r) => r,
        }
    }

    /// Evaluates both operands, left then right, and applies the operator to
    /// their values.
    pub fn execute(&self, context: &mut Context, fuel: u64) -> (r: Result<Expression, EvaluationError>)
        requires
            old(context).wf(),
            old(context)@.len() > 0,
        ensures
            realizes(
                *old(context),
                *final(context),
                r,
                self.evaluate(old(context)@, old(context).contracts(), fuel as nat),
            ),
        decreases 4 * fuel + 3, self, 0nat,
    {
        let lhs = match self.lhs().execute(context, fuel) {
            Ok(value) => value,
            Err(error) => {
                return Err(error);
            },
        };
        let right = self.rhs().execute(context, fuel);
        let rhs = match right {
            Ok(value) => value,
            Err(error) => {
                return Err(error);
            },
        };
        match self.kind() {
            OperationKind::Add => self::add(lhs, rhs),
            OperationKind::Sub => self::sub(lhs, rhs),
            OperationKind::Mul => self::mul(lhs, rhs),
            OperationKind::Div => div(lhs, rhs),
            OperationKind::BitAnd => bitand(lhs, rhs),
            OperationKind::BitOr => bitor(lhs, rhs),
            OperationKind::And => and(lhs, rhs),
            OperationKind::Or => or(lhs, rhs),
            OperationKind::Eq => eq(&lhs, &rhs),
            OperationKind::Ne => ne(&lhs, &rhs),
            OperationKind::Lt => lt(&lhs, &rhs),
            OperationKind::Lte => lte(&lhs, &rhs),
            OperationKind::Gt => gt(&lhs, &rhs),
            OperationKind::Gte => gte(&lhs, &rhs),
        }
    }

    /// Both operands are evaluated, left then right, whatever the operator;
    /// the dispatch table is then applied to their values.
    pub open spec fn evaluate(self, frames: Frames, contracts: ContractMap, fuel: nat) -> Outcome
        decreases 4 * fuel + 3, self, 0nat,
    {
        let left = self.left_spec().evaluate(frames, contracts, fuel);
        match left.result {
            Err(_) => left,
            Ok(a) => {
                let right = self.right_spec().evaluate(left.frames, contracts, fuel);
                match right.result {
                    Err(_) => right,
                    Ok(b) => Outcome { result: apply(self.kind_spec(), a, b), frames: right.frames },
                }
            },
        }
    }
}

impl Clone for Operation {
    fn clone(&self) -> (r: Self)
        ensures
            r.kind_spec() == self.kind_spec(),
        decreases *self,
    {
        match self {
            Operation::Add(lhs, rhs) => Operation::Add(lhs.clone(), rhs.clone()),
            Operation::Sub(lhs, rhs) => Operation::Sub(lhs.clone(), rhs.clone()),
            Operation::Div(lhs, rhs) => Operation::Div(lhs.clone(), rhs.clone()),
            Operation::Mul(lhs, rhs) => Operation::Mul(lhs.clone(), rhs.clone()),
            Operation::BitAnd(lhs, rhs) => Operation::BitAnd(lhs.clone(), rhs.clone()),
            Operation::BitOr(lhs, rhs) => Operation::BitOr(lhs.clone(), rhs.clone()),
            Operation::And(lhs, rhs) => Operation::And(lhs.clone(), rhs.clone()),
            Operation::Or(lhs, rhs) => Operation::Or(lhs.clone(), rhs.clone()),
            Operation::Eq(lhs, rhs) => Operation::Eq(lhs.clone(), rhs.clone()),
            Operation::Ne(lhs, rhs) => Operation::Ne(lhs.clone(), rhs.clone()),
            Operation::Lt(lhs, rhs) => Operation::Lt(lhs.clone(), rhs.clone()),
            Operation::Lte(lhs, rhs) => Operation::Lte(lhs.clone(), rhs.clone()),
            Operation::Gt(lhs, rhs) => Operation::Gt(lhs.clone(), rhs.clone()),
            Operation::Gte(lhs, rhs) => Operation::Gte(lhs.clone(), rhs.clone()),
        }
    }
}

/// Width preservation: the sum of two integer literals of one width is the
/// integer of that width that holds the sum of their values, where it fits;
/// the sum of two of different widths is a signed 64-bit integer. Neither
/// touches the environment.
pub proof fn lemma_addition_preserves_width(
    x: crate::expressions::Integer,
    y: crate::expressions::Integer,
    frames: Frames,
    contracts: ContractMap,
    fuel: nat,
)
    ensures
        ({
            let sum = Operation::Add(Expression::Integer(x), Expression::Integer(y)).evaluate(
                frames,
                contracts,
                fuel,
            );
            &&& sum.frames == frames
            &&& x.same_width(y) && x.fits(x.value() + y.value()) ==> sum.result == Ok::<
                Value,
                Failure,
            >(Value::Integer(x.with_value(x.value() + y.value())))
            &&& x.same_width(y) && x.fits(x.value() + y.value()) ==> x.with_value(
                x.value() + y.value(),
            ).same_width(x) && x.with_value(x.value() + y.value()).value() == x.value() + y.value()
            &&& !x.same_width(y) ==> (sum.result matches Ok(Value::Integer(found)) ==> found is I64)
            &&& !x.same_width(y) && i64::MIN <= x.as_i64_spec() + y.as_i64_spec() <= i64::MAX
                ==> sum.result == Ok::<Value, Failure>(
                Value::Integer(
                    crate::expressions::Integer::I64((x.as_i64_spec() + y.as_i64_spec()) as i64),
                ),
            )
        }),
{
}

} // verus!
