//! The runtime environment: a stack of frames and the contract table.

use vstd::prelude::*;
use crate::expressions::functions::FunctionArgParamPair;
use crate::expressions::loops::{Contract, contract_for};
use crate::expressions::reference::Reference;
use crate::expressions::Expression;
use crate::interpreter::error::{EvaluationError, agrees, settles};
use crate::interpreter::model::{
    Bindings,
    Frames,
    Outcome,
    Value,
    assign,
    bind,
    bind_local,
    bound,
    lemma_owner_is_unique,
    lookup,
    owns,
    resolve,
    store,
};

verus! {

/// The contracts of a function's loops, by tag. Of two entries with the same
/// tag the later one counts.
#[derive(Debug, PartialEq)]
pub struct ContractMap {
    pub entries: Vec<(String, Contract)>,
}

impl ContractMap {
    /// Entry `k` is the one that counts for `tag`.
    pub open spec fn holds(self, tag: Seq<char>, k: int) -> bool {
        &&& 0 <= k < self.entries@.len()
        &&& self.entries@[k].0@ == tag
        &&& forall|j: int| k < j < self.entries@.len() ==> (#[trigger] self.entries@[j]).0@ != tag
    }

    /// The contract that the table has for `tag`.
    pub open spec fn find(self, tag: Seq<char>) -> Option<Contract> {
        if exists|k: int| self.holds(tag, k) {
            Some(self.entries@[choose|k: int| self.holds(tag, k)].1)
        } else {
            None
        }
    }

    /// The table without entries.
    pub fn new() -> (r: ContractMap)
        ensures
            r.entries@.len() == 0,
            forall|tag: Seq<char>| r.find(tag) is None,
    {
        ContractMap { entries: Vec::new() }
    }

    /// Adds an entry, which from now on counts for its tag.
    pub fn insert(&mut self, tag: String, contract: Contract)
        ensures
            final(self).entries@ == old(self).entries@.push((tag, contract)),
            final(self).find(tag@) == Some(contract),
            forall|other: Seq<char>| other != tag@ ==> final(self).find(other) == old(self).find(other),
    {
        let ghost before = *self;
        self.entries.push((tag, contract));
        proof {
            let after = *self;
            let n = before.entries@.len() as int;
            assert(after.holds(tag@, n));
            assert forall|k: int| after.holds(tag@, k) implies k == n by {
                if k < n {
                    assert(after.entries@[n].0@ == tag@);
                }
            }
            assert forall|other: Seq<char>| other != tag@ implies after.find(other) == before.find(
                other,
            ) by {
                assert forall|k: int| after.holds(other, k) <==> before.holds(other, k) by {
                    if before.holds(other, k) {
                        assert forall|j: int| k < j < after.entries@.len() implies (
                        #[trigger] after.entries@[j]).0@ != other by {
                            if j < n {
                                assert(before.entries@[j].0@ != other);
                            }
                        }
                    }
                    if after.holds(other, k) {
                        assert forall|j: int| k < j < before.entries@.len() implies (
                        #[trigger] before.entries@[j]).0@ != other by {
                            assert(after.entries@[j].0@ != other);
                        }
                    }
                }
                if exists|k: int| before.holds(other, k) {
                    let kb = choose|k: int| before.holds(other, k);
                    assert(after.holds(other, kb));
                    let ka = choose|k: int| after.holds(other, k);
                    assert(before.holds(other, ka));
                    if ka < kb {
                        assert(before.entries@[kb].0@ != other);
                    }
                    if kb < ka {
                        assert(before.entries@[ka].0@ != other);
                    }
                }
            }
        }
    }

    /// The contract that counts for `tag`, where the table has one.
    pub fn get(&self, tag: &String) -> (r: Option<&Contract>)
        ensures
            match r {
                Some(contract) => self.find(tag@) == Some(*contract),
                None => self.find(tag@) is None,
            },
    {
        let mut i = self.entries.len();
        while i > 0
            invariant
                i <= self.entries@.len(),
                forall|j: int| i <= j < self.entries@.len() ==> (#[trigger] self.entries@[j]).0@ != tag@,
            decreases i,
        {
            i -= 1;
            if self.entries[i].0 == *tag {
                proof {
                    assert(self.holds(tag@, i as int));
                    let chosen = choose|k: int| self.holds(tag@, k);
                    if chosen < i {
                        assert(self.entries@[i as int].0@ == tag@);
                    }
                    if i < chosen {
                        assert(self.entries@[chosen].0@ != tag@);
                    }
                }
                return Some(&self.entries[i].1);
            }
        }
        proof {
            assert forall|k: int| !self.holds(tag@, k) by {
                if 0 <= k < self.entries@.len() {
                    assert(self.entries@[k].0@ != tag@);
                }
            }
        }
        None
    }
}

impl From<Vec<(String, Contract)>> for ContractMap {
    fn from(entries: Vec<(String, Contract)>) -> (r: ContractMap) {
        ContractMap { entries }
    }
}

impl vstd::std_specs::convert::FromSpecImpl<Vec<(String, Contract)>> for ContractMap {
    open spec fn obeys_from_spec() -> bool {
        true
    }

    open spec fn from_spec(entries: Vec<(String, Contract)>) -> ContractMap {
        ContractMap { entries }
    }
}

/// One level of the environment: names and what they are bound to.
#[derive(Debug)]
pub struct Frame {
    names: Vec<String>,
    values: Vec<Expression>,
}

impl View for Frame {
    type V = Bindings;

    closed spec fn view(&self) -> Bindings {
        Map::new(
            |name: Seq<char>| self.binds(name),
            |name: Seq<char>| self.values@[self.slot(name)].value(),
        )
    }
}

impl Frame {
    /// No name occurs twice, each has its value, and each value is a literal
    /// form.
    pub closed spec fn wf(self) -> bool {
        &&& self.names@.len() == self.values@.len()
        &&& forall|i: int, j: int|
            0 <= i < j < self.names@.len() ==> (#[trigger] self.names@[i])@ != (
            #[trigger] self.names@[j])@
        &&& forall|i: int| 0 <= i < self.values@.len() ==> (#[trigger] self.values@[i]).is_value()
    }

    spec fn binds(self, name: Seq<char>) -> bool {
        exists|i: int| 0 <= i < self.names@.len() && (#[trigger] self.names@[i])@ == name
    }

    spec fn slot(self, name: Seq<char>) -> int {
        choose|i: int| 0 <= i < self.names@.len() && (#[trigger] self.names@[i])@ == name
    }

    proof fn lemma_slot(self, i: int)
        requires
            self.wf(),
            0 <= i < self.names@.len(),
        ensures
            self.binds(self.names@[i]@),
            self.slot(self.names@[i]@) == i,
            self@.contains_key(self.names@[i]@),
            self@[self.names@[i]@] == self.values@[i].value(),
    {
        let name = self.names@[i]@;
        let chosen = self.slot(name);
        assert(self.names@[chosen]@ == name);
        if chosen < i {
            assert(self.names@[chosen]@ != self.names@[i]@);
        }
        if i < chosen {
            assert(self.names@[i]@ != self.names@[chosen]@);
        }
    }

    /// The frame without bindings.
    pub fn new() -> (r: Frame)
        ensures
            r.wf(),
            r@ == Map::<Seq<char>, Value>::empty(),
    {
        let r = Frame { names: Vec::new(), values: Vec::new() };
        assert(r@ =~= Map::<Seq<char>, Value>::empty());
        r
    }

    fn position(&self, name: &String) -> (r: Option<usize>)
        requires
            self.wf(),
        ensures
            match r {
                Some(i) => i < self.names@.len() && self.names@[i as int]@ == name@ && self.slot(
                    name@,
                ) == i && self.binds(name@),
                None => !self.binds(name@),
            },
    {
        let mut i: usize = 0;
        while i < self.names.len()
            invariant
                i <= self.names@.len(),
                self.wf(),
                forall|j: int| 0 <= j < i ==> (#[trigger] self.names@[j])@ != name@,
            decreases self.names@.len() - i,
        {
            if self.names[i] == *name {
                proof {
                    self.lemma_slot(i as int);
                }
                return Some(i);
            }
            i += 1;
        }
        None
    }

    /// Whether the frame binds `name`.
    pub fn contains(&self, name: &String) -> (r: bool)
        requires
            self.wf(),
        ensures
            r == self@.contains_key(name@),
    {
        self.position(name).is_some()
    }

    /// What the frame binds `name` to.
    pub fn get(&self, name: &String) -> (r: Option<&Expression>)
        requires
            self.wf(),
        ensures
            match r {
                Some(found) => self@.contains_key(name@) && found.is_value() && found.value()
                    == self@[name@],
                None => !self@.contains_key(name@),
            },
    {
        match self.position(name) {
            Some(i) => Some(&self.values[i]),
            None => None,
        }
    }

    /// Binds `name` to `value`, in place of what it was bound to.
    pub fn insert(&mut self, name: String, value: Expression)
        requires
            old(self).wf(),
            value.is_value(),
        ensures
            final(self).wf(),
            final(self)@ == old(self)@.insert(name@, value.value()),
    {
        let ghost before = *self;
        match self.position(&name) {
            Some(i) => {
                self.values.set(i, value);
                proof {
                    let after = *self;
                    assert forall|other: Seq<char>| after.binds(other) implies after.slot(other)
                        == before.slot(other) by {
                        let k = after.slot(other);
                        before.lemma_slot(k);
                    }
                    assert(after@ =~= before@.insert(name@, value.value()));
                }
            },
            None => {
                self.names.push(name);
                self.values.push(value);
                proof {
                    let after = *self;
                    let n = before.names@.len() as int;
                    assert forall|i: int, j: int| 0 <= i < j < after.names@.len() implies (
                    #[trigger] after.names@[i])@ != (#[trigger] after.names@[j])@ by {
                        if j == n {
                            assert(before.names@[i]@ != name@);
                        }
                    }
                    assert(after.wf());
                    assert forall|other: Seq<char>| after.binds(other) <==> (other == name@
                        || before.binds(other)) by {
                        if before.binds(other) {
                            let k = before.slot(other);
                            assert(after.names@[k]@ == other);
                        }
                        if other == name@ {
                            assert(after.names@[n]@ == other);
                        }
                    }
                    assert forall|other: Seq<char>| before.binds(other) implies after.slot(other)
                        == before.slot(other) by {
                        let k = before.slot(other);
                        assert(after.names@[k]@ == other);
                        after.lemma_slot(k);
                    }
                    after.lemma_slot(n);
                    assert(after@ =~= before@.insert(name@, value.value()));
                }
            },
        }
    }

    /// Replaces element `index` of the vector that `name` is bound to.
    pub fn replace_element(&mut self, name: &String, index: usize, value: Expression) -> (r: Result<
        (),
        EvaluationError,
    >)
        requires
            old(self).wf(),
            old(self)@.contains_key(name@),
            value.is_value(),
        ensures
            final(self).wf(),
            match old(self)@[name@] {
                Value::Vector(items) => if index < items.len() {
                    r is Ok && final(self)@ == old(self)@.insert(
                        name@,
                        Value::Vector(items.update(index as int, value.value())),
                    )
                } else {
                    final(self)@ == old(self)@ && (r matches Err(
                        EvaluationError::IndexOutOfRange(n, i),
                    ) && n@ == name@ && i == index)
                },
                _ => final(self)@ == old(self)@ && (r matches Err(EvaluationError::NotIndexable(n))
                    && n@ == name@),
            },
    {
        let ghost before = *self;
        let found = self.position(name);
        let i = found.unwrap();
        match &mut self.values[i] {
            Expression::Vector(items) => {
                if index < items.len() {
                    let ghost old_items = items@;
                    items.set(index, value);
                    proof {
                        assert(items@ == old_items.update(index as int, value));
                    }
                } else {
                    return Err(EvaluationError::IndexOutOfRange(name.clone(), index));
                }
            },
            _ => {
                return Err(EvaluationError::NotIndexable(name.clone()));
            },
        }
        proof {
            let after = *self;
            assert(after.names@ == before.names@);
            assert(after.values@.len() == before.values@.len());
            let old_items = before.values@[i as int]->Vector_0@;
            let new_items = after.values@[i as int]->Vector_0@;
            assert(new_items == old_items.update(index as int, value));
            assert forall|j: int| 0 <= j < new_items.len() implies (#[trigger] new_items[j]).is_value() by {
                if j != index {
                    assert(old_items[j].is_value());
                }
            }
            assert(after.wf());
            assert forall|other: Seq<char>| after.binds(other) implies after.slot(other)
                == before.slot(other) by {
                let k = after.slot(other);
                before.lemma_slot(k);
            }
            assert(after.values@[i as int].value() == Value::Vector(
                before.values@[i as int].value()->Vector_0.update(index as int, value.value()),
            )) by {
                assert(after.values@[i as int].value()->Vector_0 =~= before.values@[i as int].value()->Vector_0.update(
                    index as int,
                    value.value(),
                ));
            }
            assert(after@ =~= before@.insert(
                name@,
                Value::Vector(before@[name@]->Vector_0.update(index as int, value.value())),
            ));
        }
        Ok(())
    }
}

/// The frame that the first `count` pairs make, bound in their order; of two
/// equal names the later one stays.
pub open spec fn paired(pairs: Seq<FunctionArgParamPair>, count: nat) -> Bindings
    decreases count,
{
    if count == 0 {
        Map::empty()
    } else {
        paired(pairs, (count - 1) as nat).insert(pairs[count - 1].0@, pairs[count - 1].1.value())
    }
}

/// The runtime environment of one function evaluation: a stack of frames,
/// outermost first, and the contract table of the function.
#[derive(Debug)]
pub struct Context<'a> {
    stack: Vec<Frame>,
    contracts: &'a ContractMap,
}

impl<'a> View for Context<'a> {
    type V = Frames;

    closed spec fn view(&self) -> Frames {
        Seq::new(self.stack@.len(), |i: int| self.stack@[i]@)
    }
}

impl<'a> Context<'a> {
    /// Every frame is well formed.
    pub closed spec fn wf(self) -> bool {
        forall|i: int| 0 <= i < self.stack@.len() ==> (#[trigger] self.stack@[i]).wf()
    }

    /// The contract table that the context was made with.
    pub closed spec fn contracts(self) -> ContractMap {
        *self.contracts
    }

    /// A context without frames.
    pub fn new(contracts: &'a ContractMap) -> (r: Context<'a>)
        ensures
            r.wf(),
            r@ == Seq::<Bindings>::empty(),
            r.contracts() == *contracts,
    {
        let r = Context { stack: Vec::new(), contracts };
        assert(r@ =~= Seq::<Bindings>::empty());
        r
    }

    /// The number of frames.
    pub fn depth(&self) -> (r: usize)
        ensures
            r == self@.len(),
    {
        self.stack.len()
    }

    /// The contract table.
    pub fn table(&self) -> (r: &'a ContractMap)
        ensures
            *r == self.contracts(),
    {
        self.contracts
    }

    /// The index of the innermost frame that binds `key`.
    fn owner_index(&self, key: &String) -> (r: Option<usize>)
        requires
            self.wf(),
        ensures
            match r {
                Some(k) => owns(self@, key@, k as int),
                None => !bound(self@, key@),
            },
    {
        let mut i = self.stack.len();
        while i > 0
            invariant
                i <= self.stack@.len(),
                self.wf(),
                forall|j: int| i <= j < self.stack@.len() ==> !(#[trigger] self@[j]).contains_key(key@),
            decreases i,
        {
            i -= 1;
            if self.stack[i].contains(key) {
                return Some(i);
            }
        }
        None
    }

    /// Name resolution, innermost frame first.
    fn search_expression(&self, key: &String) -> (r: Option<&Expression>)
        requires
            self.wf(),
        ensures
            match r {
                Some(found) => found.is_value() && lookup(self@, key@) == Some(found.value()),
                None => lookup(self@, key@) is None,
            },
    {
        match self.owner_index(key) {
            Some(k) => {
                proof {
                    lemma_owner_is_unique(self@, key@, k as int);
                }
                self.stack[k].get(key)
            },
            None => None,
        }
    }

    /// Reads through a reference: the binding of a variable, or one element
    /// of the vector that a name is bound to.
    pub fn search_reference(&self, reference: &Reference) -> (r: Result<&Expression, EvaluationError>)
        requires
            self.wf(),
        ensures
            match r {
                Ok(found) => found.is_value() && resolve(self@, reference@) == Ok::<
                    Value,
                    crate::interpreter::model::Failure,
                >(found.value()),
                Err(error) => error.wf() && resolve(self@, reference@) == Err::<
                    Value,
                    crate::interpreter::model::Failure,
                >(error@),
            },
    {
        match reference {
            Reference::Variable(variable) => match self.search_expression(variable) {
                Some(found) => Ok(found),
                None => Err(EvaluationError::UnknownReference(variable.clone())),
            },
            Reference::IndexedAccess(variable, index) => match self.search_expression(variable) {
                Some(found) => match found {
                    Expression::Vector(items) => {
                        if *index < items.len() {
                            Ok(&items[*index])
                        } else {
                            Err(EvaluationError::IndexOutOfRange(variable.clone(), *index))
                        }
                    },
                    _ => Err(EvaluationError::NotIndexable(variable.clone())),
                },
                None => Err(EvaluationError::UnknownReference(variable.clone())),
            },
        }
    }

    /// Pushes an empty frame.
    pub fn push_stack(&mut self)
        requires
            old(self).wf(),
        ensures
            final(self).wf(),
            final(self).contracts() == old(self).contracts(),
            final(self)@ == old(self)@.push(Map::empty()),
    {
        self.stack.push(Frame::new());
        assert(self@ =~= old(self)@.push(Map::empty()));
    }

    /// Pushes a frame that binds each name to the value paired with it.
    pub fn push_stack_from(&mut self, args: Vec<FunctionArgParamPair>)
        requires
            old(self).wf(),
            forall|i: int| 0 <= i < args@.len() ==> (#[trigger] args@[i]).1.is_value(),
        ensures
            final(self).wf(),
            final(self).contracts() == old(self).contracts(),
            final(self)@ == old(self)@.push(paired(args@, args@.len())),
    {
        let mut args = args;
        let ghost pairs = args@;
        let mut frame = Frame::new();
        let mut i: usize = 0;
        while i < args.len()
            invariant
                i <= args@.len(),
                args@.len() == pairs.len(),
                frame.wf(),
                frame@ == paired(pairs, i as nat),
                forall|j: int| i <= j < args@.len() ==> args@[j] == pairs[j],
                forall|j: int| 0 <= j < pairs.len() ==> (#[trigger] pairs[j]).1.is_value(),
            decreases args@.len() - i,
        {
            let mut pair = (String::new(), Expression::Unit);
            args.set_and_swap(i, &mut pair);
            assert(pair == pairs[i as int]);
            frame.insert(pair.0, pair.1);
            i += 1;
        }
        self.stack.push(frame);
        assert(self@ =~= old(self)@.push(paired(pairs, pairs.len())));
    }

    /// Pops the innermost frame, where there is one.
    pub fn pop_stack(&mut self)
        requires
            old(self).wf(),
        ensures
            final(self).wf(),
            final(self).contracts() == old(self).contracts(),
            old(self)@.len() > 0 ==> final(self)@ == old(self)@.drop_last(),
            old(self)@.len() == 0 ==> final(self)@ == old(self)@,
    {
        self.stack.pop();
        assert(old(self)@.len() > 0 ==> self@ =~= old(self)@.drop_last());
        assert(old(self)@.len() == 0 ==> self@ =~= old(self)@);
    }

    /// Writes through a reference. An assignment to a variable updates the
    /// frame that owns it, or binds it in the innermost frame where no frame
    /// does; a write to a slot replaces that element of the vector in the
    /// frame that owns it.
    pub fn insert_or_update_in_heap(&mut self, reference: &Reference, expression: Expression) -> (r:
        Result<(), EvaluationError>)
        requires
            old(self).wf(),
            old(self)@.len() > 0,
            expression.is_value(),
        ensures
            final(self).wf(),
            final(self).contracts() == old(self).contracts(),
            final(self)@.len() == old(self)@.len(),
            settles(r, old(self)@, final(self)@, store(old(self)@, reference@, expression.value())),
    {
        match reference {
            Reference::Variable(variable) => {
                match self.owner_index(variable) {
                    Some(k) => {
                        proof {
                            lemma_owner_is_unique(self@, variable@, k as int);
                        }
                        self.stack[k].insert(variable.clone(), expression);
                        assert(self@ =~= assign(old(self)@, variable@, expression.value()));
                    },
                    None => {
                        let top = self.stack.len() - 1;
                        self.stack[top].insert(variable.clone(), expression);
                        assert(self@ =~= bind_local(old(self)@, variable@, expression.value()));
                    },
                }
                Ok(())
            },
            Reference::IndexedAccess(variable, index) => {
                match self.owner_index(variable) {
                    Some(k) => {
                        proof {
                            lemma_owner_is_unique(self@, variable@, k as int);
                        }
                        let ghost held = self@[k as int][variable@];
                        let r = self.stack[k].replace_element(variable, *index, expression);
                        proof {
                            match held {
                                Value::Vector(items) => {
                                    if *index < items.len() {
                                        assert(self@ =~= assign(
                                            old(self)@,
                                            variable@,
                                            Value::Vector(
                                                items.update(*index as int, expression.value()),
                                            ),
                                        ));
                                    } else {
                                        assert(self@ =~= old(self)@);
                                    }
                                },
                                _ => {
                                    assert(self@ =~= old(self)@);
                                },
                            }
                        }
                        r
                    },
                    None => Err(EvaluationError::UnknownReference(variable.clone())),
                }
            },
        }
    }

    /// Binds a variable in the innermost frame, whatever the outer frames
    /// hold; a slot of a vector cannot be bound.
    pub fn insert_into_heap(&mut self, reference: &Reference, expression: Expression) -> (r: Result<
        (),
        EvaluationError,
    >)
        requires
            old(self).wf(),
            old(self)@.len() > 0,
            expression.is_value(),
        ensures
            final(self).wf(),
            final(self).contracts() == old(self).contracts(),
            final(self)@.len() == old(self)@.len(),
            settles(r, old(self)@, final(self)@, bind(old(self)@, reference@, expression.value())),
    {
        match reference {
            Reference::Variable(variable) => {
                let top = self.stack.len() - 1;
                self.stack[top].insert(variable.clone(), expression);
                assert(self@ =~= bind_local(old(self)@, variable@, expression.value()));
                Ok(())
            },
            Reference::IndexedAccess(variable, index) => Err(
                EvaluationError::InvalidBinding(variable.clone(), *index),
            ),
        }
    }

    /// The contract of the loop with this tag: none where the loop has no
    /// tag or the table has no such entry, which is the contract without
    /// conditions.
    pub fn get_contract(&self, tag: &Option<String>) -> (r: Option<&'a Contract>)
        ensures
            match r {
                Some(contract) => *contract == contract_for(self.contracts(), *tag),
                None => contract_for(self.contracts(), *tag) == Contract::empty(),
            },
    {
        match tag {
            Some(text) => self.contracts.get(text),
            None => None,
        }
    }
}

/// An execution has done what `outcome` says: the context is still well
/// formed, has the contract table and the number of frames it had before,
/// holds the frames of the outcome, and the result is that of the outcome.
pub open spec fn realizes(
    before: Context,
    after: Context,
    result: Result<Expression, EvaluationError>,
    outcome: Outcome,
) -> bool {
    &&& after.wf()
    &&& after.contracts() == before.contracts()
    &&& after@.len() == before@.len()
    &&& after@ == outcome.frames
    &&& agrees(result, outcome.result)
}

impl Clone for ContractMap {
    #[verifier::loop_isolation(false)]
    fn clone(&self) -> (r: Self)
        ensures
            r.entries@.len() == self.entries@.len(),
        decreases *self,
    {
        let mut entries: Vec<(String, Contract)> = Vec::new();
        let mut i: usize = 0;
        while i < self.entries.len()
            invariant
                i <= self.entries@.len(),
                entries@.len() == i,
            decreases self.entries@.len() - i,
        {
            let tag = self.entries[i].0.clone();
            let contract = self.entries[i].1.clone();
            entries.push((tag, contract));
            i += 1;
        }
        ContractMap { entries }
    }
}

impl Default for ContractMap {
    /// The table without entries.
    fn default() -> (r: Self)
        ensures
            r.entries@.len() == 0,
    {
        ContractMap { entries: Vec::new() }
    }
}

} // verus!
