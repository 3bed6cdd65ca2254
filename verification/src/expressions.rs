//! The syntax tree and its meaning: expressions, which double as runtime
//! values, and how each kind of node is evaluated.

use vstd::prelude::*;
use crate::interpreter::context::{Context, ContractMap, realizes};
use crate::interpreter::error::EvaluationError;
use crate::interpreter::model::{
    Failure,
    Frames,
    Gathered,
    Outcome,
    Value,
    ValueKind,
    resolve,
};

pub use self::{
    block::Block,
    conditions::Condition,
    functions::{Function, FunctionBuilder, FunctionCall, FunctionParams},
    integer::Integer,
    loops::Loop,
    method_call::MethodCall,
    operation::Operation,
    reference::IndexedAccessExpression,
    reference::Reference,
    statements::Statement,
};

pub mod block;
pub mod conditions;
pub mod fuel;
pub mod functions;
pub mod integer;
pub mod loops;
pub mod method_call;
pub mod operation;
pub mod reference;
pub mod scoping;
pub mod statements;

verus! {

/// A node of the syntax tree; the literal forms double as runtime values.
#[derive(Debug, PartialEq)]
pub enum Expression {
    Unit,
    Vector(Vec<Expression>),
    Reference(Reference),
    IndexedAccessExpression(IndexedAccessExpression),
    Integer(Integer),
    Char(char),
    String(String),
    Bool(bool),
    Operation(Box<Operation>),
    Condition(Box<Condition>),
    Loop(Box<Loop>),
    FunctionCall(FunctionCall),
    Block(Box<Block>),
    MethodCall(MethodCall),
}

/// What the literal forms of a list stand for, one by one.
pub open spec fn values_of(items: Seq<Expression>) -> Seq<Value> {
    Seq::new(items.len(), |i: int| items[i].value())
}

/// Every expression of the list is a literal form.
pub open spec fn all_values(items: Seq<Expression>) -> bool {
    forall|i: int| 0 <= i < items.len() ==> (#[trigger] items[i]).is_value()
}

/// The value of a vector is the vector of the values of its elements.
pub proof fn lemma_vector_value(items: Vec<Expression>)
    ensures
        Expression::Vector(items).value() == Value::Vector(values_of(items@)),
        Expression::Vector(items).is_value() == all_values(items@),
{
    assert(Expression::Vector(items).value()->Vector_0 =~= values_of(items@));
}

/// Evaluates the expressions of a list in order, each in the environment
/// that the one before it left, and gathers their values. The first failure
/// ends the evaluation.
#[verifier::loop_isolation(false)]
pub fn execute_all(items: &Vec<Expression>, context: &mut Context, fuel: u64) -> (r: Result<
    Vec<Expression>,
    EvaluationError,
>)
    requires
        old(context).wf(),
        old(context)@.len() > 0,
    ensures
        final(context).wf(),
        final(context).contracts() == old(context).contracts(),
        final(context)@.len() == old(context)@.len(),
        final(context)@ == evaluate_all(
            items@,
            0,
            Seq::empty(),
            old(context)@,
            old(context).contracts(),
            fuel as nat,
        ).frames,
        match r {
            Ok(found) => all_values(found@) && evaluate_all(
                items@,
                0,
                Seq::empty(),
                old(context)@,
                old(context).contracts(),
                fuel as nat,
            ).result == Ok::<Seq<Value>, Failure>(values_of(found@)),
            Err(error) => error.wf() && evaluate_all(
                items@,
                0,
                Seq::empty(),
                old(context)@,
                old(context).contracts(),
                fuel as nat,
            ).result == Err::<Seq<Value>, Failure>(error@),
        },
    decreases 4 * fuel + 3, items, 0nat,
{
    let ghost whole = evaluate_all(
        items@,
        0,
        Seq::empty(),
        old(context)@,
        old(context).contracts(),
        fuel as nat,
    );
    let mut found: Vec<Expression> = Vec::new();
    let mut i: usize = 0;
    assert(values_of(found@) =~= Seq::<Value>::empty());
    while i < items.len()
        invariant
            i <= items@.len(),
            context.wf(),
            context.contracts() == old(context).contracts(),
            context@.len() == old(context)@.len(),
            all_values(found@),
            evaluate_all(
                items@,
                i as nat,
                values_of(found@),
                context@,
                context.contracts(),
                fuel as nat,
            ) == whole,
        decreases items@.len() - i,
    {
        let ghost before = values_of(found@);
        match items[i].execute(context, fuel) {
            Ok(value) => {
                found.push(value);
                assert(values_of(found@) =~= before.push(value.value()));
            },
            Err(error) => {
                return Err(error);
            },
        }
        i += 1;
    }
    Ok(found)
}

/// The values of the first `from` literal forms have been gathered in
/// `done`; the rest are evaluated in order, each in the environment the
/// previous one left.
pub open spec fn evaluate_all(
    items: Seq<Expression>,
    from: nat,
    done: Seq<Value>,
    frames: Frames,
    contracts: ContractMap,
    fuel: nat,
) -> Gathered
    decreases 4 * fuel + 3, items, items.len() - from,
{
    if from >= items.len() {
        Gathered { result: Ok(done), frames }
    } else {
        let item = items[from as int].evaluate(frames, contracts, fuel);
        match item.result {
            Err(failure) => Gathered { result: Err(failure), frames: item.frames },
            Ok(value) => evaluate_all(
                items,
                from + 1,
                done.push(value),
                item.frames,
                contracts,
                fuel,
            ),
        }
    }
}

impl Expression {
    /// A literal form all the way down: nothing in it is left to evaluate.
    pub open spec fn is_value(self) -> bool
        decreases self,
    {
        match self {
            Expression::Unit => true,
            Expression::Bool(_) => true,
            Expression::Char(_) => true,
            Expression::String(_) => true,
            Expression::Integer(_) => true,
            Expression::Vector(items) => forall|i: int|
                0 <= i < items@.len() ==> (#[trigger] items@[i]).is_value(),
            _ => false,
        }
    }

    /// What a literal form stands for.
    pub open spec fn value(self) -> Value
        decreases self,
    {
        match self {
            Expression::Unit => Value::Unit,
            Expression::Bool(b) => Value::Bool(b),
            Expression::Char(c) => Value::Char(c),
            Expression::String(s) => Value::Text(s@),
            Expression::Integer(i) => Value::Integer(i),
            Expression::Vector(items) => Value::Vector(
                Seq::new(
                    items@.len(),
                    |i: int|
                        if 0 <= i < items@.len() {
                            items@[i].value()
                        } else {
                            Value::Unit
                        },
                ),
            ),
            _ => Value::Unit,
        }
    }

    /// The kind of a literal form.
    pub fn kind(&self) -> (r: ValueKind)
        requires
            self.is_value(),
        ensures
            r == self.value().kind(),
    {
        match self {
            Expression::Unit => ValueKind::Unit,
            Expression::Bool(_) => ValueKind::Bool,
            Expression::Char(_) => ValueKind::Char,
            Expression::String(_) => ValueKind::String,
            Expression::Integer(_) => ValueKind::Integer,
            _ => ValueKind::Vector,
        }
    }

    /// A copy of a literal form.
    #[verifier::loop_isolation(false)]
    pub fn duplicate(&self) -> (r: Expression)
        requires
            self.is_value(),
        ensures
            r.is_value(),
            r.value() == self.value(),
        decreases self,
    {
        match self {
            Expression::Bool(b) => Expression::Bool(*b),
            Expression::Char(c) => Expression::Char(*c),
            Expression::String(s) => Expression::String(s.clone()),
            Expression::Integer(i) => Expression::Integer(*i),
            Expression::Vector(items) => {
                let mut copies: Vec<Expression> = Vec::new();
                let mut i: usize = 0;
                while i < items.len()
                    invariant
                        i <= items@.len(),
                        copies@.len() == i,
                        all_values(copies@),
                        forall|j: int| 0 <= j < i ==> (#[trigger] copies@[j]).value() == items@[j].value(),
                    decreases items@.len() - i,
                {
                    let copy = items[i].duplicate();
                    copies.push(copy);
                    i += 1;
                }
                proof {
                    lemma_vector_value(copies);
                    lemma_vector_value(*items);
                    assert(values_of(copies@) =~= values_of(items@));
                }
                Expression::Vector(copies)
            },
            _ => Expression::Unit,
        }
    }

    /// Evaluates the expression in `context`. Literal forms evaluate to
    /// themselves; a vector evaluates its elements in order; every other
    /// node hands on to its own kind. `fuel` bounds the iterations of any
    /// one `while` loop and the nesting of contract conditions.
    pub fn execute(&self, context: &mut Context, fuel: u64) -> (r: Result<Expression, EvaluationError>)
        requires
            old(context).wf(),
            old(context)@.len() > 0,
        ensures
            realizes(
                *old(context),
                *final(context),
                r,
                self.evaluate(old(context)@, old(context).contracts(), fuel as nat),
            ),
        decreases 4 * fuel + 3, self, 0nat,
    {
        match self {
            Self::Unit => Ok(Expression::Unit),
            Self::Bool(b) => Ok(Expression::Bool(*b)),
            Self::Char(c) => Ok(Expression::Char(*c)),
            Self::String(s) => Ok(Expression::String(s.clone())),
            Self::Integer(i) => Ok(Expression::Integer(*i)),
            Self::Vector(items) => match execute_all(items, context, fuel) {
                Ok(found) => {
                    proof {
                        lemma_vector_value(found);
                    }
                    Ok(Expression::Vector(found))
                },
                Err(error) => Err(error),
            },
            Self::Reference(reference) => reference.execute(context),
            Self::IndexedAccessExpression(expression) => expression.execute(context, fuel),
            Self::Operation(operation) => operation.execute(context, fuel),
            Self::Loop(loop_instance) => loop_instance.execute(context, fuel),
            Self::Condition(condition) => condition.execute(context, fuel),
            Self::Block(block) => block.execute(context, fuel),
            Self::FunctionCall(function_call) => function_call.execute(context, fuel),
            Self::MethodCall(method_call) => method_call.execute(context, fuel),
        }
    }

    /// The meaning of an expression: its result and the environment it
    /// leaves, given the environment it starts in, the contract table and a
    /// bound on the iterations of any one loop.
    pub open spec fn evaluate(self, frames: Frames, contracts: ContractMap, fuel: nat) -> Outcome
        decreases 4 * fuel + 3, self, 0nat,
    {
        match self {
            Expression::Unit => Outcome::done(Value::Unit, frames),
            Expression::Bool(b) => Outcome::done(Value::Bool(b), frames),
            Expression::Char(c) => Outcome::done(Value::Char(c), frames),
            Expression::String(s) => Outcome::done(Value::Text(s@), frames),
            Expression::Integer(i) => Outcome::done(Value::Integer(i), frames),
            Expression::Vector(items) => {
                let gathered = evaluate_all(items@, 0, Seq::empty(), frames, contracts, fuel);
                match gathered.result {
                    Ok(values) => Outcome::done(Value::Vector(values), gathered.frames),
                    Err(failure) => Outcome::fail(failure, gathered.frames),
                }
            },
            Expression::Reference(reference) => Outcome {
                result: resolve(frames, reference@),
                frames,
            },
            Expression::IndexedAccessExpression(access) => access.evaluate(frames, contracts, fuel),
            Expression::Operation(operation) => operation.evaluate(frames, contracts, fuel),
            Expression::Condition(condition) => condition.evaluate(frames, contracts, fuel),
            Expression::Loop(repetition) => repetition.evaluate(frames, contracts, fuel),
            Expression::FunctionCall(call) => call.evaluate(frames, contracts, fuel),
            Expression::Block(block) => block.evaluate(frames, contracts, fuel),
            Expression::MethodCall(call) => call.evaluate(frames, contracts, fuel),
        }
    }
}

impl From<i32> for Expression {
    fn from(value: i32) -> (r: Expression) {
        Expression::Integer(Integer::I32(value))
    }
}

impl vstd::std_specs::convert::FromSpecImpl<i32> for Expression {
    open spec fn obeys_from_spec() -> bool {
        true
    }

    open spec fn from_spec(value: i32) -> Expression {
        Expression::Integer(Integer::I32(value))
    }
}

impl From<i64> for Expression {
    fn from(value: i64) -> (r: Expression) {
        Expression::Integer(Integer::I64(value))
    }
}

impl vstd::std_specs::convert::FromSpecImpl<i64> for Expression {
    open spec fn obeys_from_spec() -> bool {
        true
    }

    open spec fn from_spec(value: i64) -> Expression {
        Expression::Integer(Integer::I64(value))
    }
}

impl From<usize> for Expression {
    fn from(value: usize) -> (r: Expression) {
        Expression::Integer(Integer::Usize(value))
    }
}

impl vstd::std_specs::convert::FromSpecImpl<usize> for Expression {
    open spec fn obeys_from_spec() -> bool {
        true
    }

    open spec fn from_spec(value: usize) -> Expression {
        Expression::Integer(Integer::Usize(value))
    }
}

impl<T: Into<Expression>> From<Vec<T>> for Expression {
    /// A vector of the converted elements, in their order.
    fn from(iterator: Vec<T>) -> (r: Expression)
        ensures
            r matches Expression::Vector(items) && items@.len() == iterator@.len() && forall|i: int|
                0 <= i < items@.len() ==> call_ensures(
                    <T as Into<Expression>>::into,
                    (iterator@[i],),
                    #[trigger] items@[i],
                ),
    {
        let mut rest = iterator;
        let mut reversed: Vec<Expression> = Vec::new();
        while rest.len() > 0
            invariant
                rest@.len() + reversed@.len() == iterator@.len(),
                forall|i: int| 0 <= i < rest@.len() ==> rest@[i] == iterator@[i],
                forall|i: int|
                    0 <= i < reversed@.len() ==> call_ensures(
                        <T as Into<Expression>>::into,
                        (iterator@[iterator@.len() - 1 - i],),
                        #[trigger] reversed@[i],
                    ),
            decreases rest@.len(),
        {
            let element = rest.pop().unwrap();
            reversed.push(element.into());
        }
        let ghost converted = reversed@;
        let mut vector: Vec<Expression> = Vec::new();
        while reversed.len() > 0
            invariant
                converted.len() == iterator@.len(),
                reversed@.len() + vector@.len() == converted.len(),
                forall|i: int| 0 <= i < reversed@.len() ==> reversed@[i] == converted[i],
                forall|i: int|
                    0 <= i < vector@.len() ==> (#[trigger] vector@[i]) == converted[converted.len()
                        - 1 - i],
                forall|i: int|
                    0 <= i < converted.len() ==> call_ensures(
                        <T as Into<Expression>>::into,
                        (iterator@[iterator@.len() - 1 - i],),
                        #[trigger] converted[i],
                    ),
            decreases reversed@.len(),
        {
            let element = reversed.pop().unwrap();
            vector.push(element);
        }
        proof {
            assert forall|i: int| 0 <= i < vector@.len() implies call_ensures(
                <T as Into<Expression>>::into,
                (iterator@[i],),
                #[trigger] vector@[i],
            ) by {
                let j = converted.len() - 1 - i;
                assert(vector@[i] == converted[j]);
            }
        }
        Expression::Vector(vector)
    }
}

impl<T: Into<Expression>> vstd::std_specs::convert::FromSpecImpl<Vec<T>> for Expression {
    open spec fn obeys_from_spec() -> bool {
        false
    }

    open spec fn from_spec(iterator: Vec<T>) -> Expression {
        Expression::Unit
    }
}

/// A copy of each expression of a list, in their order.
#[verifier::loop_isolation(false)]
pub fn clone_expressions(items: &Vec<Expression>) -> (r: Vec<Expression>)
    ensures
        r@.len() == items@.len(),
        forall|i: int|
            0 <= i < items@.len() && (#[trigger] items@[i]).is_value() ==> r@[i].is_value()
                && r@[i].value() == items@[i].value(),
    decreases items, 0nat,
{
    let mut copies: Vec<Expression> = Vec::new();
    let mut i: usize = 0;
    while i < items.len()
        invariant
            i <= items@.len(),
            copies@.len() == i,
            forall|j: int|
                0 <= j < i && (#[trigger] items@[j]).is_value() ==> copies@[j].is_value()
                    && copies@[j].value() == items@[j].value(),
        decreases items@.len() - i,
    {
        let copy = items[i].clone();
        copies.push(copy);
        i += 1;
    }
    copies
}

impl Clone for Expression {
    /// A copy of the whole tree; a literal form stays the literal form it
    /// was.
    fn clone(&self) -> (r: Self)
        ensures
            self.is_value() ==> r.is_value() && r.value() == self.value(),
        decreases *self, 1nat,
    {
        match self {
            Expression::Unit => Expression::Unit,
            Expression::Bool(b) => Expression::Bool(*b),
            Expression::Char(c) => Expression::Char(*c),
            Expression::String(s) => Expression::String(s.clone()),
            Expression::Integer(i) => Expression::Integer(*i),
            Expression::Vector(items) => {
                let copies = clone_expressions(items);
                proof {
                    lemma_vector_value(copies);
                    lemma_vector_value(*items);
                    if self.is_value() {
                        assert forall|i: int| 0 <= i < copies@.len() implies (
                        #[trigger] copies@[i]).is_value() && copies@[i].value()
                            == items@[i].value() by {
                            assert(items@[i].is_value());
                        }
                        assert(values_of(copies@) =~= values_of(items@));
                    }
                }
                Expression::Vector(copies)
            },
            Expression::Reference(reference) => Expression::Reference(reference.clone()),
            Expression::IndexedAccessExpression(access) => Expression::IndexedAccessExpression(
                access.clone(),
            ),
            Expression::Operation(operation) => {
                let copy: Operation = (**operation).clone();
                Expression::Operation(Box::new(copy))
            },
            Expression::Condition(condition) => {
                let copy: Condition = (**condition).clone();
                Expression::Condition(Box::new(copy))
            },
            Expression::Loop(repetition) => {
                let copy: Loop = (**repetition).clone();
                Expression::Loop(Box::new(copy))
            },
            Expression::FunctionCall(call) => Expression::FunctionCall(call.clone()),
            Expression::Block(block) => {
                let copy: Block = (**block).clone();
                Expression::Block(Box::new(copy))
            },
            Expression::MethodCall(call) => Expression::MethodCall(call.clone()),
        }
    }
}

/// Literal forms evaluate to what they stand for, one after the other, and
/// leave the environment as it is.
pub proof fn lemma_literals_evaluate_to_themselves(
    items: Seq<Expression>,
    from: nat,
    done: Seq<Value>,
    frames: Frames,
    contracts: ContractMap,
    fuel: nat,
)
    requires
        all_values(items),
        from <= items.len(),
    ensures
        evaluate_all(items, from, done, frames, contracts, fuel) == (Gathered {
            result: Ok(done + values_of(items).subrange(from as int, items.len() as int)),
            frames,
        }),
    decreases items, items.len() - from,
{
    if from >= items.len() {
        assert(done + values_of(items).subrange(from as int, items.len() as int) =~= done);
    } else {
        let item = items[from as int];
        assert(item.is_value());
        lemma_literal_evaluates_to_itself(item, frames, contracts, fuel);
        lemma_literals_evaluate_to_themselves(
            items,
            from + 1,
            done.push(item.value()),
            frames,
            contracts,
            fuel,
        );
        assert(done.push(item.value()) + values_of(items).subrange(
            (from + 1) as int,
            items.len() as int,
        ) =~= done + values_of(items).subrange(from as int, items.len() as int));
    }
}

/// Idempotent literals: a literal form evaluates to what it stands for, in
/// any environment and with any fuel, and leaves the environment as it is.
pub proof fn lemma_literal_evaluates_to_itself(
    literal: Expression,
    frames: Frames,
    contracts: ContractMap,
    fuel: nat,
)
    requires
        literal.is_value(),
    ensures
        literal.evaluate(frames, contracts, fuel) == Outcome::done(literal.value(), frames),
    decreases literal,
{
    match literal {
        Expression::Vector(items) => {
            lemma_literals_evaluate_to_themselves(
                items@,
                0,
                Seq::empty(),
                frames,
                contracts,
                fuel,
            );
            lemma_vector_value(items);
            assert(Seq::<Value>::empty() + values_of(items@).subrange(0, items@.len() as int)
                =~= values_of(items@));
        },
        _ => {},
    }
}

} // verus!
