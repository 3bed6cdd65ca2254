//! The mathematical model of evaluation: values, environments, failures, and
//! the reads and writes that the meaning of the syntax tree is stated in.

use vstd::prelude::*;
use crate::expressions::integer::Integer;
use crate::expressions::operation::OperationKind;

verus! {

/// What a fully evaluated expression stands for.
pub enum Value {
    Unit,
    Bool(bool),
    Char(char),
    Text(Seq<char>),
    Integer(Integer),
    Vector(Seq<Value>),
}

/// The kind of a value, as diagnostics name it.
#[derive(Debug, Clone, Copy, PartialEq, Eq)]
pub enum ValueKind {
    Unit,
    Bool,
    Char,
    String,
    Integer,
    Vector,
}

/// The construct whose condition was not a boolean.
#[derive(Debug, Clone, Copy, PartialEq, Eq)]
pub enum MismatchContext {
    IfCondition,
    WhileCondition,
}

/// What a reference names: a binding, or one slot of a vector-valued binding.
pub enum Place {
    Variable(Seq<char>),
    Element(Seq<char>, usize),
}

/// Why an evaluation stopped.
pub enum Failure {
    UnknownReference(Seq<char>),
    IndexOutOfRange(Seq<char>, usize),
    InvalidIndexExpression(Value),
    NotIndexable(Seq<char>),
    TypeMismatch(MismatchContext, Value),
    InvalidRange(Value, Value),
    UnsupportedOperation(OperationKind, ValueKind, ValueKind),
    ArityMismatch(nat, nat),
    ContractFailed(Seq<char>, Seq<char>),
    ContractTypeError(Seq<char>, Seq<char>, Value),
    InvalidMethod(Seq<char>, Value),
    InvalidBinding(Seq<char>, usize),
    ArithmeticOverflow(OperationKind),
    DivisionByZero,
    FuelExhausted,
}

/// One level of the environment: what its names are bound to.
pub type Bindings = Map<Seq<char>, Value>;

/// The environment: frames from outermost to innermost.
pub type Frames = Seq<Map<Seq<char>, Value>>;

/// What an evaluation leaves behind: its result and the environment after it.
pub struct Outcome {
    pub result: Result<Value, Failure>,
    pub frames: Frames,
}

/// What the evaluation of a list of expressions leaves behind.
pub struct Gathered {
    pub result: Result<Seq<Value>, Failure>,
    pub frames: Frames,
}

impl Value {
    /// The kind of the value.
    pub open spec fn kind(self) -> ValueKind {
        match self {
            Value::Unit => ValueKind::Unit,
            Value::Bool(_) => ValueKind::Bool,
            Value::Char(_) => ValueKind::Char,
            Value::Text(_) => ValueKind::String,
            Value::Integer(_) => ValueKind::Integer,
            Value::Vector(_) => ValueKind::Vector,
        }
    }
}

impl Outcome {
    /// The evaluation succeeded with `value`.
    pub open spec fn done(value: Value, frames: Frames) -> Outcome {
        Outcome { result: Ok(value), frames }
    }

    /// The evaluation stopped with `failure`.
    pub open spec fn fail(failure: Failure, frames: Frames) -> Outcome {
        Outcome { result: Err(failure), frames }
    }

    /// The same result with the innermost frame popped.
    pub open spec fn unwound(self) -> Outcome {
        Outcome { result: self.result, frames: self.frames.drop_last() }
    }
}

/// Frame `k` is the innermost one that binds `name`.
pub open spec fn owns(frames: Frames, name: Seq<char>, k: int) -> bool {
    &&& 0 <= k < frames.len()
    &&& frames[k].contains_key(name)
    &&& forall|j: int| k < j < frames.len() ==> !(#[trigger] frames[j]).contains_key(name)
}

/// Some frame binds `name`.
pub open spec fn bound(frames: Frames, name: Seq<char>) -> bool {
    exists|k: int| 0 <= k < frames.len() && (#[trigger] frames[k]).contains_key(name)
}

/// The innermost frame that binds `name`, where one does.
pub open spec fn owner(frames: Frames, name: Seq<char>) -> int {
    choose|k: int| owns(frames, name, k)
}

/// Name resolution, innermost frame first.
pub open spec fn lookup(frames: Frames, name: Seq<char>) -> Option<Value> {
    if bound(frames, name) {
        Some(frames[owner(frames, name)][name])
    } else {
        None
    }
}

/// What a read through `place` gives.
pub open spec fn resolve(frames: Frames, place: Place) -> Result<Value, Failure> {
    match place {
        Place::Variable(name) => match lookup(frames, name) {
            Some(value) => Ok(value),
            None => Err(Failure::UnknownReference(name)),
        },
        Place::Element(name, index) => match lookup(frames, name) {
            Some(Value::Vector(items)) => if index < items.len() {
                Ok(items[index as int])
            } else {
                Err(Failure::IndexOutOfRange(name, index))
            },
            Some(_) => Err(Failure::NotIndexable(name)),
            None => Err(Failure::UnknownReference(name)),
        },
    }
}

/// The environment with `name` bound in the innermost frame.
pub open spec fn bind_local(frames: Frames, name: Seq<char>, value: Value) -> Frames {
    frames.update(frames.len() - 1, frames.last().insert(name, value))
}

/// The environment after an assignment to `name`: the owning frame is
/// updated, or the innermost frame gets a new binding.
pub open spec fn assign(frames: Frames, name: Seq<char>, value: Value) -> Frames {
    if bound(frames, name) {
        let k = owner(frames, name);
        frames.update(k, frames[k].insert(name, value))
    } else {
        bind_local(frames, name, value)
    }
}

/// What a write through `place` does: an assignment to a variable, or the
/// replacement of one element of a vector in the frame that owns it.
pub open spec fn store(frames: Frames, place: Place, value: Value) -> Result<Frames, Failure> {
    match place {
        Place::Variable(name) => Ok(assign(frames, name, value)),
        Place::Element(name, index) => match lookup(frames, name) {
            Some(Value::Vector(items)) => if index < items.len() {
                Ok(assign(frames, name, Value::Vector(items.update(index as int, value))))
            } else {
                Err(Failure::IndexOutOfRange(name, index))
            },
            Some(_) => Err(Failure::NotIndexable(name)),
            None => Err(Failure::UnknownReference(name)),
        },
    }
}

/// What the frame-local write does: only a variable can be bound.
pub open spec fn bind(frames: Frames, place: Place, value: Value) -> Result<Frames, Failure> {
    match place {
        Place::Variable(name) => Ok(bind_local(frames, name, value)),
        Place::Element(name, index) => Err(Failure::InvalidBinding(name, index)),
    }
}

/// The innermost owner is unique.
pub proof fn lemma_owner_is_unique(frames: Frames, name: Seq<char>, k: int)
    requires
        owns(frames, name, k),
    ensures
        bound(frames, name),
        owner(frames, name) == k,
{
    let chosen = owner(frames, name);
    assert(owns(frames, name, chosen));
    if chosen < k {
        assert(!frames[k].contains_key(name));
    }
    if k < chosen {
        assert(!frames[chosen].contains_key(name));
    }
}

/// Where a name is bound, one frame is the innermost that binds it.
pub proof fn lemma_bound_has_owner(frames: Frames, name: Seq<char>)
    requires
        bound(frames, name),
    ensures
        owns(frames, name, owner(frames, name)),
{
    lemma_owner_below(frames, name, frames.len() - 1);
}

proof fn lemma_owner_below(frames: Frames, name: Seq<char>, top: int)
    requires
        -1 <= top < frames.len(),
        exists|k: int| 0 <= k <= top && (#[trigger] frames[k]).contains_key(name),
        forall|j: int| top < j < frames.len() ==> !(#[trigger] frames[j]).contains_key(name),
    ensures
        owns(frames, name, owner(frames, name)),
    decreases top + 1,
{
    if frames[top].contains_key(name) {
        assert(owns(frames, name, top));
    } else {
        lemma_owner_below(frames, name, top - 1);
    }
}

/// A frame above frame `k` binds `name`, so that the binding of `name` in
/// frame `k`, if it has one, cannot be reached.
pub open spec fn shadowed(frames: Frames, k: int, name: Seq<char>) -> bool {
    exists|j: int| k < j < frames.len() && (#[trigger] frames[j]).contains_key(name)
}

/// Frame `k` holds for `name` in `after` what it held in `before`.
pub open spec fn same_slot(before: Frames, after: Frames, k: int, name: Seq<char>) -> bool {
    &&& after[k].contains_key(name) == before[k].contains_key(name)
    &&& before[k].contains_key(name) ==> after[k][name] == before[k][name]
}

/// What every evaluation keeps: the number of frames, the names that each
/// frame binds, and whatever a binding in a frame further in shadows.
#[verifier::opaque]
pub open spec fn keeps(before: Frames, after: Frames) -> bool {
    &&& before.len() == after.len()
    &&& forall|k: int, name: Seq<char>|
        0 <= k < before.len() && (#[trigger] before[k].contains_key(name))
            ==> after[k].contains_key(name)
    &&& forall|k: int, name: Seq<char>|
        0 <= k < before.len() && shadowed(before, k, name) ==> #[trigger] same_slot(
            before,
            after,
            k,
            name,
        )
}

/// Every frame holds for `name` in `after` what it held in `before`.
pub open spec fn same_binding(before: Frames, after: Frames, name: Seq<char>) -> bool {
    &&& before.len() == after.len()
    &&& forall|k: int| 0 <= k < before.len() ==> #[trigger] same_slot(before, after, k, name)
}

/// An environment keeps itself.
pub proof fn lemma_keeps_itself(frames: Frames)
    ensures
        keeps(frames, frames),
{
    reveal(keeps);
    assert forall|k: int, name: Seq<char>|
        0 <= k < frames.len() && shadowed(frames, k, name) implies #[trigger] same_slot(
        frames,
        frames,
        k,
        name,
    ) by {}
}

/// What two evaluations in a row keep, their sequence keeps.
pub proof fn lemma_keeps_in_sequence(first: Frames, second: Frames, third: Frames)
    requires
        keeps(first, second),
        keeps(second, third),
    ensures
        keeps(first, third),
{
    reveal(keeps);
    assert forall|k: int, name: Seq<char>|
        0 <= k < first.len() && shadowed(first, k, name) implies #[trigger] same_slot(
        first,
        third,
        k,
        name,
    ) by {
        let j = choose|j: int| k < j < first.len() && (#[trigger] first[j]).contains_key(name);
        assert(second[j].contains_key(name));
        assert(shadowed(second, k, name));
        assert(same_slot(first, second, k, name));
        assert(same_slot(second, third, k, name));
    }
    assert forall|k: int, name: Seq<char>|
        0 <= k < first.len() && (#[trigger] first[k].contains_key(name)) implies third[k].contains_key(
        name,
    ) by {
        assert(second[k].contains_key(name));
    }
}

/// What an evaluation keeps, it keeps below the innermost frame.
pub proof fn lemma_keeps_below(before: Frames, after: Frames)
    requires
        keeps(before, after),
        before.len() > 0,
    ensures
        keeps(before.drop_last(), after.drop_last()),
{
    reveal(keeps);
    let below = before.drop_last();
    let left = after.drop_last();
    assert forall|k: int, name: Seq<char>|
        0 <= k < below.len() && shadowed(below, k, name) implies #[trigger] same_slot(
        below,
        left,
        k,
        name,
    ) by {
        let j = choose|j: int| k < j < below.len() && (#[trigger] below[j]).contains_key(name);
        assert(before[j].contains_key(name));
        assert(shadowed(before, k, name));
        assert(same_slot(before, after, k, name));
    }
    assert forall|k: int, name: Seq<char>|
        0 <= k < below.len() && (#[trigger] below[k].contains_key(name)) implies left[k].contains_key(
        name,
    ) by {
        assert(before[k].contains_key(name));
    }
}

/// What runs in a scope of its own keeps the environment around the scope.
pub proof fn lemma_keeps_around_scope(outer: Frames, scope: Bindings, after: Frames)
    requires
        keeps(outer.push(scope), after),
    ensures
        keeps(outer, after.drop_last()),
{
    lemma_keeps_below(outer.push(scope), after);
    assert(outer.push(scope).drop_last() =~= outer);
}

/// A new binding in one frame, or a new value for a binding that nothing
/// shadows, keeps the environment.
pub proof fn lemma_keeps_update(frames: Frames, k: int, name: Seq<char>, value: Value)
    requires
        0 <= k < frames.len(),
        !shadowed(frames, k, name),
    ensures
        keeps(frames, frames.update(k, frames[k].insert(name, value))),
{
    reveal(keeps);
    let after = frames.update(k, frames[k].insert(name, value));
    assert forall|i: int, other: Seq<char>|
        0 <= i < frames.len() && shadowed(frames, i, other) implies #[trigger] same_slot(
        frames,
        after,
        i,
        other,
    ) by {
        if i == k && other == name {
            assert(false);
        }
    }
}

/// A write keeps the environment.
pub proof fn lemma_store_keeps(frames: Frames, place: Place, value: Value)
    requires
        frames.len() > 0,
    ensures
        store(frames, place, value) matches Ok(after) ==> keeps(frames, after),
{
    let name = match place {
        Place::Variable(name) => name,
        Place::Element(name, _) => name,
    };
    if bound(frames, name) {
        let k = owner(frames, name);
        lemma_bound_has_owner(frames, name);
        assert(!shadowed(frames, k, name));
        match place {
            Place::Variable(_) => {
                lemma_keeps_update(frames, k, name, value);
            },
            Place::Element(_, index) => {
                match lookup(frames, name) {
                    Some(Value::Vector(items)) => {
                        lemma_keeps_update(
                            frames,
                            k,
                            name,
                            Value::Vector(items.update(index as int, value)),
                        );
                    },
                    _ => {},
                }
            },
        }
    } else {
        assert(!shadowed(frames, frames.len() - 1, name));
        match place {
            Place::Variable(_) => {
                lemma_keeps_update(frames, frames.len() - 1, name, value);
            },
            Place::Element(_, _) => {},
        }
    }
}

/// A binding in the innermost frame keeps the environment.
pub proof fn lemma_bind_keeps(frames: Frames, place: Place, value: Value)
    requires
        frames.len() > 0,
    ensures
        bind(frames, place, value) matches Ok(after) ==> keeps(frames, after),
{
    match place {
        Place::Variable(name) => {
            assert(!shadowed(frames, frames.len() - 1, name));
            lemma_keeps_update(frames, frames.len() - 1, name, value);
        },
        Place::Element(_, _) => {},
    }
}

/// What runs in a scope that binds `name` leaves every binding of `name`
/// around the scope as it was.
pub proof fn lemma_scope_shields(outer: Frames, scope: Bindings, after: Frames, name: Seq<char>)
    requires
        keeps(outer.push(scope), after),
        scope.contains_key(name),
    ensures
        same_binding(outer, after.drop_last(), name),
{
    reveal(keeps);
    let inner = outer.push(scope);
    assert forall|k: int| 0 <= k < outer.len() implies #[trigger] same_slot(
        outer,
        after.drop_last(),
        k,
        name,
    ) by {
        assert(inner[outer.len() as int].contains_key(name));
        assert(shadowed(inner, k, name));
        assert(same_slot(inner, after, k, name));
    }
}

/// Bindings that are the same twice over are the same.
pub proof fn lemma_same_binding_in_sequence(
    first: Frames,
    second: Frames,
    third: Frames,
    name: Seq<char>,
)
    requires
        same_binding(first, second, name),
        same_binding(second, third, name),
    ensures
        same_binding(first, third, name),
{
    assert forall|k: int| 0 <= k < first.len() implies #[trigger] same_slot(
        first,
        third,
        k,
        name,
    ) by {
        assert(same_slot(first, second, k, name));
        assert(same_slot(second, third, k, name));
    }
}

/// Bindings that are the same in every frame are the same below the
/// innermost frame.
pub proof fn lemma_same_binding_below(before: Frames, after: Frames, name: Seq<char>)
    requires
        same_binding(before, after, name),
        before.len() > 0,
    ensures
        same_binding(before.drop_last(), after.drop_last(), name),
{
    assert forall|k: int| 0 <= k < before.len() - 1 implies #[trigger] same_slot(
        before.drop_last(),
        after.drop_last(),
        k,
        name,
    ) by {
        assert(same_slot(before, after, k, name));
    }
}

/// Where every frame holds for `name` what it held, the name resolves to
/// what it resolved to.
pub proof fn lemma_same_binding_same_lookup(before: Frames, after: Frames, name: Seq<char>)
    requires
        same_binding(before, after, name),
    ensures
        lookup(before, name) == lookup(after, name),
{
    assert forall|k: int| 0 <= k < before.len() implies (#[trigger] before[k]).contains_key(name)
        == after[k].contains_key(name) by {
        assert(same_slot(before, after, k, name));
    }
    if bound(before, name) {
        let k = owner(before, name);
        lemma_bound_has_owner(before, name);
        assert(same_slot(before, after, k, name));
        assert(owns(after, name, k)) by {
            assert forall|j: int| k < j < after.len() implies !(#[trigger] after[j]).contains_key(
                name,
            ) by {
                assert(!before[j].contains_key(name));
            }
        }
        lemma_owner_is_unique(after, name, k);
    } else {
        if bound(after, name) {
            let k = choose|k: int| 0 <= k < after.len() && (#[trigger] after[k]).contains_key(name);
            assert(before[k].contains_key(name));
        }
    }
}

/// What an evaluation keeps includes the number of frames.
pub proof fn lemma_keeps_depth(before: Frames, after: Frames)
    requires
        keeps(before, after),
    ensures
        before.len() == after.len(),
{
    reveal(keeps);
}

/// Every frame holds for a name what it holds.
pub proof fn lemma_same_binding_itself(frames: Frames, name: Seq<char>)
    ensures
        same_binding(frames, frames, name),
{
    assert forall|k: int| 0 <= k < frames.len() implies #[trigger] same_slot(
        frames,
        frames,
        k,
        name,
    ) by {}
}

/// A binding in the innermost frame changes nothing below that frame.
pub proof fn lemma_bind_changes_nothing_below(frames: Frames, place: Place, value: Value)
    requires
        frames.len() > 0,
    ensures
        bind(frames, place, value) matches Ok(after) ==> after.drop_last() == frames.drop_last(),
{
    match bind(frames, place, value) {
        Ok(after) => {
            assert(after.drop_last() =~= frames.drop_last());
        },
        Err(_) => {},
    }
}

} // verus!
