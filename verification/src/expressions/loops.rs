//! Loops and their contracts: the conditions validated before, between and
//! after the iterations.

use vstd::prelude::*;
use crate::expressions::functions::FunctionBuilder;
use crate::expressions::integer::Integer;
use crate::expressions::reference::Reference;
use crate::expressions::statements::{Statement, clone_statements, execute_statements, run_statements};
use crate::expressions::Expression;
use crate::interpreter::context::{Context, ContractMap, realizes};
use crate::interpreter::error::{EvaluationError, agrees};
use crate::interpreter::model::{
    Failure,
    Frames,
    MismatchContext,
    Outcome,
    Value,
    bind,
    keeps,
    lookup,
    resolve,
};
use crate::expressions::lemma_literal_evaluates_to_itself;
use crate::expressions::scoping::lemma_ranged_loop_restores;

verus! {

/// A loop expression.
#[derive(Debug, PartialEq)]
pub enum Loop {
    While(WhileLoop),
    RangedFor(RangedForLoop),
}

/// The conditions attached to a loop by its tag. Each names the function
/// that decides it: one that takes no parameters and returns a boolean.
#[derive(Debug, PartialEq)]
pub struct Contract {
    pub pre_condition: Option<(String, FunctionBuilder)>,
    pub maintenance_condition: Option<(String, FunctionBuilder)>,
    pub post_condition: Option<(String, FunctionBuilder)>,
}

/// `while condition { statements }`, with an optional contract tag.
#[derive(Debug, PartialEq)]
pub struct WhileLoop {
    pub tag: Option<String>,
    pub statements: Vec<Statement>,
    pub condition: Expression,
}

/// `for variable in start..end { statements }`, with an optional contract
/// tag.
#[derive(Debug, PartialEq)]
pub struct RangedForLoop {
    pub tag: Option<String>,
    pub statements: Vec<Statement>,
    pub variable: Reference,
    pub start: Expression,
    pub end: Expression,
}

/// The number of indices from `index` up to `end`.
pub open spec fn remaining(index: usize, end: usize) -> nat {
    if index < end {
        (end - index) as nat
    } else {
        0
    }
}

/// The tag as diagnostics name it.
pub open spec fn tag_text(tag: Option<String>) -> Seq<char> {
    match tag {
        Some(text) => text@,
        None => Seq::empty(),
    }
}

/// The contract of a loop: the one its tag names in the table, or the empty
/// one where it has no tag or the table has no such entry.
pub open spec fn contract_for(contracts: ContractMap, tag: Option<String>) -> Contract {
    match tag {
        Some(text) => match contracts.find(text@) {
            Some(contract) => contract,
            None => Contract::empty(),
        },
        None => Contract::empty(),
    }
}

/// The validation of one condition of a contract. A missing condition
/// holds. A present one is run as a call without arguments in the current
/// environment, so that it sees the live bindings; it must return a boolean,
/// and `true`. A failure of its own is handed on unchanged.
pub open spec fn verdict(
    condition: Option<(String, FunctionBuilder)>,
    tag: Seq<char>,
    frames: Frames,
    contracts: ContractMap,
    fuel: nat,
) -> Outcome
    decreases 4 * fuel,
{
    match condition {
        None => Outcome::done(Value::Unit, frames),
        Some((name, builder)) => if fuel == 0 {
            Outcome::fail(Failure::FuelExhausted, frames)
        } else {
            let decided = builder.function.run(frames, contracts, Seq::empty(), (fuel - 1) as nat);
            match decided.result {
                Err(_) => decided,
                Ok(Value::Bool(true)) => Outcome::done(Value::Unit, decided.frames),
                Ok(Value::Bool(false)) => Outcome::fail(
                    Failure::ContractFailed(tag, name@),
                    decided.frames,
                ),
                Ok(other) => Outcome::fail(
                    Failure::ContractTypeError(tag, name@, other),
                    decided.frames,
                ),
            }
        },
    }
}

/// A validation has done what `outcome` says: the context is still well
/// formed, has the contract table and the number of frames it had before,
/// holds the frames of the outcome, and fails as the outcome does.
pub open spec fn checks(
    before: Context,
    after: Context,
    result: Result<(), EvaluationError>,
    outcome: Outcome,
) -> bool {
    &&& after.wf()
    &&& after.contracts() == before.contracts()
    &&& after@.len() == before@.len()
    &&& after@ == outcome.frames
    &&& match result {
        Ok(_) => outcome.result is Ok,
        Err(error) => error.wf() && outcome.result == Err::<Value, Failure>(error@),
    }
}

/// The binding that the iterator variable had on entry, as the loop keeps
/// it: a value to put back, or nothing.
pub open spec fn snapshot_of(previous: Option<Expression>) -> Option<Value> {
    match previous {
        Some(found) => Some(found.value()),
        None => None,
    }
}

/// The contract that a lookup found, or the empty one.
pub open spec fn chosen(contract: Option<&Contract>) -> Contract {
    match contract {
        Some(found) => *found,
        None => Contract::empty(),
    }
}

fn tag_name(tag: &Option<String>) -> (r: String)
    ensures
        r@ == tag_text(*tag),
{
    match tag {
        Some(text) => text.clone(),
        None => String::new(),
    }
}

/// Validates one condition of a contract: a missing one holds; a present
/// one is called without arguments in the current context and must return
/// `true`.
pub fn validate(
    condition: &Option<(String, FunctionBuilder)>,
    tag: &Option<String>,
    context: &mut Context,
    fuel: u64,
) -> (r: Result<(), EvaluationError>)
    requires
        old(context).wf(),
    ensures
        checks(
            *old(context),
            *final(context),
            r,
            verdict(*condition, tag_text(*tag), old(context)@, old(context).contracts(), fuel as nat),
        ),
    decreases 4 * fuel,
{
    match condition {
        None => Ok(()),
        Some((name, builder)) => {
            if fuel == 0 {
                return Err(EvaluationError::FuelExhausted);
            }
            match builder.build().execute(context, Vec::new(), fuel - 1) {
                Ok(Expression::Bool(true)) => Ok(()),
                Ok(Expression::Bool(false)) => Err(
                    EvaluationError::ContractFailed(tag_name(tag), name.clone()),
                ),
                Ok(other) => Err(
                    EvaluationError::ContractTypeError(tag_name(tag), name.clone(), other),
                ),
                Err(error) => Err(error),
            }
        },
    }
}

fn validate_pre(contract: Option<&Contract>, context: &mut Context, tag: &Option<String>, fuel: u64) -> (r:
    Result<(), EvaluationError>)
    requires
        old(context).wf(),
    ensures
        checks(
            *old(context),
            *final(context),
            r,
            verdict(
                chosen(contract).pre_condition,
                tag_text(*tag),
                old(context)@,
                old(context).contracts(),
                fuel as nat,
            ),
        ),
    decreases 4 * fuel + 2,
{
    match contract {
        Some(found) => found.validate_pre_condition(context, tag, fuel),
        None => Ok(()),
    }
}

fn validate_maintenance(contract: Option<&Contract>, context: &mut Context, tag: &Option<String>, fuel: u64) -> (r:
    Result<(), EvaluationError>)
    requires
        old(context).wf(),
    ensures
        checks(
            *old(context),
            *final(context),
            r,
            verdict(
                chosen(contract).maintenance_condition,
                tag_text(*tag),
                old(context)@,
                old(context).contracts(),
                fuel as nat,
            ),
        ),
    decreases 4 * fuel + 2,
{
    match contract {
        Some(found) => found.validate_maintenance_condition(context, tag, fuel),
        None => Ok(()),
    }
}

fn validate_post(contract: Option<&Contract>, context: &mut Context, tag: &Option<String>, fuel: u64) -> (r:
    Result<(), EvaluationError>)
    requires
        old(context).wf(),
    ensures
        checks(
            *old(context),
            *final(context),
            r,
            verdict(
                chosen(contract).post_condition,
                tag_text(*tag),
                old(context)@,
                old(context).contracts(),
                fuel as nat,
            ),
        ),
    decreases 4 * fuel + 2,
{
    match contract {
        Some(found) => found.validate_post_condition(context, tag, fuel),
        None => Ok(()),
    }
}

impl Contract {
    /// Validates the pre-condition, once on entry to the loop.
    pub fn validate_pre_condition(&self, context: &mut Context, tag: &Option<String>, fuel: u64) -> (r: Result<
        (),
        EvaluationError,
    >)
        requires
            old(context).wf(),
        ensures
            checks(
                *old(context),
                *final(context),
                r,
                verdict(
                    self.pre_condition,
                    tag_text(*tag),
                    old(context)@,
                    old(context).contracts(),
                    fuel as nat,
                ),
            ),
        decreases 4 * fuel + 1,
    {
        validate(&self.pre_condition, tag, context, fuel)
    }

    /// Validates the maintenance condition, after a completed iteration.
    pub fn validate_maintenance_condition(&self, context: &mut Context, tag: &Option<String>, fuel: u64) -> (r: Result<
        (),
        EvaluationError,
    >)
        requires
            old(context).wf(),
        ensures
            checks(
                *old(context),
                *final(context),
                r,
                verdict(
                    self.maintenance_condition,
                    tag_text(*tag),
                    old(context)@,
                    old(context).contracts(),
                    fuel as nat,
                ),
            ),
        decreases 4 * fuel + 1,
    {
        validate(&self.maintenance_condition, tag, context, fuel)
    }

    /// Validates the post-condition, once on exit from the loop.
    pub fn validate_post_condition(&self, context: &mut Context, tag: &Option<String>, fuel: u64) -> (r: Result<
        (),
        EvaluationError,
    >)
        requires
            old(context).wf(),
        ensures
            checks(
                *old(context),
                *final(context),
                r,
                verdict(
                    self.post_condition,
                    tag_text(*tag),
                    old(context)@,
                    old(context).contracts(),
                    fuel as nat,
                ),
            ),
        decreases 4 * fuel + 1,
    {
        validate(&self.post_condition, tag, context, fuel)
    }

    /// The contract without conditions.
    pub open spec fn empty() -> Contract {
        Contract { pre_condition: None, maintenance_condition: None, post_condition: None }
    }
}

impl Loop {
    /// Executes the loop.
    pub fn execute(&self, context: &mut Context, fuel: u64) -> (r: Result<Expression, EvaluationError>)
        requires
            old(context).wf(),
            old(context)@.len() > 0,
        ensures
            realizes(
                *old(context),
                *final(context),
                r,
                self.evaluate(old(context)@, old(context).contracts(), fuel as nat),
            ),
        decreases 4 * fuel + 3, self, 0nat,
    {
        match self {
            Self::While(while_loop) => while_loop.execute(context, fuel),
            Self::RangedFor(for_loop) => for_loop.execute(context, fuel),
        }
    }

    /// The meaning of the loop.
    pub open spec fn evaluate(self, frames: Frames, contracts: ContractMap, fuel: nat) -> Outcome
        decreases 4 * fuel + 3, self, 0nat,
    {
        match self {
            Loop::While(repetition) => repetition.evaluate(frames, contracts, fuel),
            Loop::RangedFor(repetition) => repetition.evaluate(frames, contracts, fuel),
        }
    }
}

impl WhileLoop {
    /// Executes the loop: the pre-condition once, then iterations while the
    /// condition is `true`, each in a frame of its own and followed by the
    /// maintenance condition, then the post-condition once. An iteration
    /// takes one unit of fuel.
    #[verifier::loop_isolation(false)]
    pub fn execute(&self, context: &mut Context, fuel: u64) -> (r: Result<Expression, EvaluationError>)
        requires
            old(context).wf(),
            old(context)@.len() > 0,
        ensures
            realizes(
                *old(context),
                *final(context),
                r,
                self.evaluate(old(context)@, old(context).contracts(), fuel as nat),
            ),
        decreases 4 * fuel + 3, self, 1nat,
    {
        let contract = context.get_contract(&self.tag);
        match validate_pre(contract, context, &self.tag, fuel) {
            Ok(()) => {},
            Err(error) => {
                return Err(error);
            },
        }
        let ghost entered = context@;
        let ghost whole = self.iterate(
            chosen(contract),
            Value::Unit,
            entered,
            context.contracts(),
            fuel as nat,
        );
        let mut result = Expression::Unit;
        let mut remaining = fuel;
        let mut running = true;
        while running
            invariant
                context.wf(),
                context.contracts() == old(context).contracts(),
                context@.len() == old(context)@.len(),
                result.is_value(),
                remaining <= fuel,
                running ==> self.iterate(
                    chosen(contract),
                    result.value(),
                    context@,
                    context.contracts(),
                    remaining as nat,
                ) == whole,
                !running ==> whole == Outcome::done(result.value(), context@),
            decreases remaining, (if running { 1nat } else { 0nat }),
        {
            let condition = match self.condition.execute(context, remaining) {
                Ok(value) => value,
                Err(error) => {
                    return Err(error);
                },
            };
            match condition {
                Expression::Bool(true) => {
                    if remaining == 0 {
                        return Err(EvaluationError::FuelExhausted);
                    }
                    remaining = remaining - 1;
                    context.push_stack();
                    let body = execute_statements(&self.statements, result, context, remaining);
                    context.pop_stack();
                    result = match body {
                        Ok(value) => value,
                        Err(error) => {
                            return Err(error);
                        },
                    };
                    match validate_maintenance(contract, context, &self.tag, remaining) {
                        Ok(()) => {},
                        Err(error) => {
                            return Err(error);
                        },
                    }
                },
                Expression::Bool(false) => {
                    running = false;
                },
                other => {
                    return Err(
                        EvaluationError::TypeMismatch(MismatchContext::WhileCondition, other),
                    );
                },
            }
        }
        match validate_post(contract, context, &self.tag, fuel) {
            Ok(()) => Ok(result),
            Err(error) => Err(error),
        }
    }

    /// The iterations of the loop, from an environment in which the
    /// pre-condition has been validated. The condition must be a boolean; on
    /// `true` the statements run in a frame of their own, the maintenance
    /// condition is validated once that frame is gone, and the loop goes on
    /// with one unit of fuel less. `last` is the value of the loop so far.
    pub open spec fn iterate(
        self,
        contract: Contract,
        last: Value,
        frames: Frames,
        contracts: ContractMap,
        fuel: nat,
    ) -> Outcome
        decreases 4 * fuel + 3, self, 0nat,
    {
        let condition = self.condition.evaluate(frames, contracts, fuel);
        match condition.result {
            Err(_) => condition,
            Ok(Value::Bool(true)) => if fuel == 0 {
                Outcome::fail(Failure::FuelExhausted, condition.frames)
            } else {
                let body = run_statements(
                    self.statements@,
                    0,
                    last,
                    condition.frames.push(Map::empty()),
                    contracts,
                    (fuel - 1) as nat,
                ).unwound();
                match body.result {
                    Err(_) => body,
                    Ok(value) => {
                        let kept = verdict(
                            contract.maintenance_condition,
                            tag_text(self.tag),
                            body.frames,
                            contracts,
                            (fuel - 1) as nat,
                        );
                        match kept.result {
                            Err(_) => kept,
                            Ok(_) => self.iterate(
                                contract,
                                value,
                                kept.frames,
                                contracts,
                                (fuel - 1) as nat,
                            ),
                        }
                    },
                }
            },
            Ok(Value::Bool(false)) => Outcome::done(last, condition.frames),
            Ok(other) => Outcome::fail(
                Failure::TypeMismatch(MismatchContext::WhileCondition, other),
                condition.frames,
            ),
        }
    }

    /// The pre-condition is validated once on entry, the iterations follow,
    /// and the post-condition is validated once when the condition has
    /// become false. The value is that of the last statement of the last
    /// iteration, or unit.
    pub open spec fn evaluate(self, frames: Frames, contracts: ContractMap, fuel: nat) -> Outcome
        decreases 4 * fuel + 3, self, 1nat,
    {
        let contract = contract_for(contracts, self.tag);
        let entered = verdict(contract.pre_condition, tag_text(self.tag), frames, contracts, fuel);
        match entered.result {
            Err(_) => entered,
            Ok(_) => {
                let body = self.iterate(contract, Value::Unit, entered.frames, contracts, fuel);
                match body.result {
                    Err(_) => body,
                    Ok(value) => {
                        let left = verdict(
                            contract.post_condition,
                            tag_text(self.tag),
                            body.frames,
                            contracts,
                            fuel,
                        );
                        match left.result {
                            Err(_) => left,
                            Ok(_) => Outcome::done(value, left.frames),
                        }
                    },
                }
            },
        }
    }
}

impl RangedForLoop {
    /// Executes the loop in a frame of its own: the bounds, the
    /// pre-condition, one iteration for each index of the range, each in a
    /// frame of its own and followed by the maintenance condition, and, once
    /// the loop's frame is popped, the post-condition. Every frame pushed is
    /// popped on every path out. Where the loop has no contract, whatever the
    /// iterator variable was bound to once the bounds were evaluated, it is
    /// bound to after the loop.
    pub fn execute(&self, context: &mut Context, fuel: u64) -> (r: Result<Expression, EvaluationError>)
        requires
            old(context).wf(),
            old(context)@.len() > 0,
        ensures
            realizes(
                *old(context),
                *final(context),
                r,
                self.evaluate(old(context)@, old(context).contracts(), fuel as nat),
            ),
            self.variable matches Reference::Variable(name) ==> (self.restores(
                old(context)@,
                old(context).contracts(),
                fuel as nat,
            ) ==> lookup(final(context)@, name@) == lookup(
                self.bounded(old(context)@, old(context).contracts(), fuel as nat),
                name@,
            )),
            self.variable matches Reference::Variable(name) ==> (self.start.is_value()
                && self.end.is_value() && contract_for(old(context).contracts(), self.tag)
                == Contract::empty() ==> lookup(final(context)@, name@) == lookup(
                old(context)@,
                name@,
            )),
        decreases 4 * fuel + 3, self, 2nat,
    {
        proof {
            self.lemma_literal_bounds(context@, context.contracts(), fuel as nat);
            match &self.variable {
                Reference::Variable(name) => {
                    if self.restores(context@, context.contracts(), fuel as nat) {
                        lemma_ranged_loop_restores(
                            *self,
                            name@,
                            context@,
                            context.contracts(),
                            fuel as nat,
                        );
                    }
                },
                _ => {},
            }
        }
        context.push_stack();
        let previous_variable_value = match context.search_reference(&self.variable) {
            Ok(value) => Some(value.duplicate()),
            Err(_) => None,
        };
        let start = match self.start.execute(context, fuel) {
            Ok(value) => value,
            Err(error) => {
                context.pop_stack();
                return Err(error);
            },
        };
        let end = match self.end.execute(context, fuel) {
            Ok(value) => value,
            Err(error) => {
                context.pop_stack();
                return Err(error);
            },
        };
        match (start, end) {
            (Expression::Integer(start), Expression::Integer(end)) => {
                self.execute_range(start, end, previous_variable_value, context, fuel)
            },
            (start, end) => {
                context.pop_stack();
                Err(EvaluationError::InvalidRange(start, end))
            },
        }
    }

    /// What follows the evaluation of the bounds: the pre-condition, the
    /// iterations, the restoring of the binding that the iterator variable
    /// had on entry, the popping of the loop's frame and the post-condition.
    fn execute_range(
        &self,
        start: Integer,
        end: Integer,
        previous_variable_value: Option<Expression>,
        context: &mut Context,
        fuel: u64,
    ) -> (r: Result<Expression, EvaluationError>)
        requires
            old(context).wf(),
            old(context)@.len() > 1,
            match previous_variable_value {
                Some(previous) => previous.is_value(),
                None => true,
            },
        ensures
            final(context).wf(),
            final(context).contracts() == old(context).contracts(),
            final(context)@.len() == old(context)@.len() - 1,
            final(context)@ == self.repeat(
                start,
                end,
                snapshot_of(previous_variable_value),
                old(context)@,
                old(context).contracts(),
                fuel as nat,
            ).frames,
            agrees(
                r,
                self.repeat(
                    start,
                    end,
                    snapshot_of(previous_variable_value),
                    old(context)@,
                    old(context).contracts(),
                    fuel as nat,
                ).result,
            ),
        decreases 4 * fuel + 3, self, 1nat,
    {
        let contract = context.get_contract(&self.tag);
        match validate_pre(contract, context, &self.tag, fuel) {
            Ok(()) => {},
            Err(error) => {
                context.pop_stack();
                return Err(error);
            },
        }
        let result = match self.execute_iterations(
            contract,
            start.as_usize(),
            end.as_usize(),
            context,
            fuel,
        ) {
            Ok(value) => value,
            Err(error) => {
                context.pop_stack();
                return Err(error);
            },
        };
        if let Some(previous_variable_value) = previous_variable_value {
            match context.insert_into_heap(&self.variable, previous_variable_value) {
                Ok(()) => {},
                Err(error) => {
                    context.pop_stack();
                    return Err(error);
                },
            }
        }
        context.pop_stack();
        match validate_post(contract, context, &self.tag, fuel) {
            Ok(()) => Ok(result),
            Err(error) => Err(error),
        }
    }

    /// One iteration for each index from `start` up to `end`.
    #[verifier::loop_isolation(false)]
    fn execute_iterations(
        &self,
        contract: Option<&Contract>,
        start: usize,
        end: usize,
        context: &mut Context,
        fuel: u64,
    ) -> (r: Result<Expression, EvaluationError>)
        requires
            old(context).wf(),
            old(context)@.len() > 0,
        ensures
            realizes(
                *old(context),
                *final(context),
                r,
                self.iterate(
                    chosen(contract),
                    start,
                    end,
                    Value::Unit,
                    old(context)@,
                    old(context).contracts(),
                    fuel as nat,
                ),
            ),
        decreases 4 * fuel + 3, self, 0nat,
    {
        let ghost rounds = self.iterate(
            chosen(contract),
            start,
            end,
            Value::Unit,
            context@,
            context.contracts(),
            fuel as nat,
        );
        let mut result = Expression::Unit;
        let mut i = start;
        while i < end
            invariant
                context.wf(),
                context.contracts() == old(context).contracts(),
                context@.len() == old(context)@.len(),
                result.is_value(),
                self.iterate(
                    chosen(contract),
                    i,
                    end,
                    result.value(),
                    context@,
                    context.contracts(),
                    fuel as nat,
                ) == rounds,
            decreases end - i,
        {
            let ghost before = context@;
            context.push_stack();
            match context.insert_into_heap(&self.variable, Expression::Integer(Integer::Usize(i))) {
                Ok(()) => {},
                Err(error) => {
                    context.pop_stack();
                    assert(context@ =~= before);
                    return Err(error);
                },
            }
            let body = execute_statements(&self.statements, result, context, fuel);
            context.pop_stack();
            result = match body {
                Ok(value) => value,
                Err(error) => {
                    return Err(error);
                },
            };
            match validate_maintenance(contract, context, &self.tag, fuel) {
                Ok(()) => {},
                Err(error) => {
                    return Err(error);
                },
            }
            i = i + 1;
        }
        Ok(result)
    }

    /// The loop has no contract, and both of its bounds evaluate.
    pub open spec fn restores(self, frames: Frames, contracts: ContractMap, fuel: nat) -> bool {
        let start = self.start.evaluate(frames.push(Map::empty()), contracts, fuel);
        &&& contract_for(contracts, self.tag) == Contract::empty()
        &&& start.result is Ok
        &&& self.end.evaluate(start.frames, contracts, fuel).result is Ok
    }

    /// The environment around the loop once both bounds are evaluated.
    pub open spec fn bounded(self, frames: Frames, contracts: ContractMap, fuel: nat) -> Frames {
        self.end.evaluate(
            self.start.evaluate(frames.push(Map::empty()), contracts, fuel).frames,
            contracts,
            fuel,
        ).frames.drop_last()
    }

    proof fn lemma_literal_bounds(self, frames: Frames, contracts: ContractMap, fuel: nat)
        ensures
            self.start.is_value() && self.end.is_value() ==> self.bounded(frames, contracts, fuel)
                == frames && (contract_for(contracts, self.tag) == Contract::empty()
                ==> self.restores(frames, contracts, fuel)),
    {
        if self.start.is_value() && self.end.is_value() {
            let entered = frames.push(Map::empty());
            lemma_literal_evaluates_to_itself(self.start, entered, contracts, fuel);
            lemma_literal_evaluates_to_itself(self.end, entered, contracts, fuel);
            assert(entered.drop_last() =~= frames);
        }
    }

    /// The iterations for the indices from `index` up to `end`, in the
    /// loop's own frame. Each binds the iterator variable to its index in a
    /// frame of its own, runs the statements there, and validates the
    /// maintenance condition once that frame is gone.
    pub open spec fn iterate(
        self,
        contract: Contract,
        index: usize,
        end: usize,
        last: Value,
        frames: Frames,
        contracts: ContractMap,
        fuel: nat,
    ) -> Outcome
        decreases 4 * fuel + 3, self, remaining(index, end),
    {
        if index >= end {
            Outcome::done(last, frames)
        } else {
            match bind(
                frames.push(Map::empty()),
                self.variable@,
                Value::Integer(Integer::Usize(index)),
            ) {
                Err(failure) => Outcome::fail(failure, frames),
                Ok(inner) => {
                    let body = run_statements(self.statements@, 0, last, inner, contracts, fuel).unwound();
                    match body.result {
                        Err(_) => body,
                        Ok(value) => {
                            let kept = verdict(
                                contract.maintenance_condition,
                                tag_text(self.tag),
                                body.frames,
                                contracts,
                                fuel,
                            );
                            match kept.result {
                                Err(_) => kept,
                                Ok(_) => self.iterate(
                                    contract,
                                    (index + 1) as usize,
                                    end,
                                    value,
                                    kept.frames,
                                    contracts,
                                    fuel,
                                ),
                            }
                        },
                    }
                },
            }
        }
    }

    /// What follows the evaluation of the bounds, in the loop's own frame:
    /// the pre-condition, the iterations, the restoring of the binding that
    /// the iterator variable had on entry, and, once the loop's frame is
    /// gone, the post-condition.
    pub open spec fn repeat(
        self,
        start: Integer,
        end: Integer,
        snapshot: Option<Value>,
        frames: Frames,
        contracts: ContractMap,
        fuel: nat,
    ) -> Outcome
        decreases 4 * fuel + 3, self, usize::MAX + 1,
    {
        let contract = contract_for(contracts, self.tag);
        let entered = verdict(contract.pre_condition, tag_text(self.tag), frames, contracts, fuel);
        match entered.result {
            Err(_) => entered.unwound(),
            Ok(_) => {
                let body = self.iterate(
                    contract,
                    start.as_usize_spec(),
                    end.as_usize_spec(),
                    Value::Unit,
                    entered.frames,
                    contracts,
                    fuel,
                );
                match body.result {
                    Err(_) => body.unwound(),
                    Ok(value) => {
                        let restored = match snapshot {
                            Some(previous) => bind(body.frames, self.variable@, previous),
                            None => Ok(body.frames),
                        };
                        match restored {
                            Err(failure) => Outcome::fail(failure, body.frames.drop_last()),
                            Ok(settled) => {
                                let left = verdict(
                                    contract.post_condition,
                                    tag_text(self.tag),
                                    settled.drop_last(),
                                    contracts,
                                    fuel,
                                );
                                match left.result {
                                    Err(_) => left,
                                    Ok(_) => Outcome::done(value, left.frames),
                                }
                            },
                        }
                    },
                }
            },
        }
    }

    /// The loop gets a frame of its own, in which both bounds are evaluated;
    /// they must be integers and are coerced to unsigned machine words. The
    /// body never runs where the start is not below the end, and the pre- and
    /// post-conditions are validated all the same. The value is that of the
    /// last statement of the last iteration, or unit.
    pub open spec fn evaluate(self, frames: Frames, contracts: ContractMap, fuel: nat) -> Outcome
        decreases 4 * fuel + 3, self, usize::MAX + 2,
    {
        let entered = frames.push(Map::empty());
        let snapshot = match resolve(entered, self.variable@) {
            Ok(previous) => Some(previous),
            Err(_) => None,
        };
        let start = self.start.evaluate(entered, contracts, fuel);
        match start.result {
            Err(_) => start.unwound(),
            Ok(from) => {
                let end = self.end.evaluate(start.frames, contracts, fuel);
                match end.result {
                    Err(_) => end.unwound(),
                    Ok(to) => match (from, to) {
                        (Value::Integer(a), Value::Integer(b)) => self.repeat(
                            a,
                            b,
                            snapshot,
                            end.frames,
                            contracts,
                            fuel,
                        ),
                        _ => Outcome::fail(Failure::InvalidRange(from, to), end.frames.drop_last()),
                    },
                }
            },
        }
    }
}

fn clone_condition(condition: &Option<(String, FunctionBuilder)>) -> (r: Option<(String, FunctionBuilder)>)
    ensures
        r is Some == condition is Some,
    decreases condition,
{
    match condition {
        Some((name, builder)) => Some((name.clone(), builder.clone())),
        None => None,
    }
}

impl Clone for Contract {
    fn clone(&self) -> (r: Self)
        decreases *self,
    {
        Contract {
            pre_condition: clone_condition(&self.pre_condition),
            maintenance_condition: clone_condition(&self.maintenance_condition),
            post_condition: clone_condition(&self.post_condition),
        }
    }
}

impl Default for Contract {
    /// The contract without conditions.
    fn default() -> (r: Self)
        ensures
            r == Contract::empty(),
    {
        Contract { pre_condition: None, maintenance_condition: None, post_condition: None }
    }
}

impl Clone for Loop {
    fn clone(&self) -> (r: Self)
        decreases *self,
    {
        match self {
            Loop::While(repetition) => Loop::While(repetition.clone()),
            Loop::RangedFor(repetition) => Loop::RangedFor(repetition.clone()),
        }
    }
}

impl Clone for WhileLoop {
    fn clone(&self) -> (r: Self)
        ensures
            r.statements@.len() == self.statements@.len(),
        decreases *self,
    {
        WhileLoop {
            tag: self.tag.clone(),
            statements: clone_statements(&self.statements),
            condition: self.condition.clone(),
        }
    }
}

impl Clone for RangedForLoop {
    fn clone(&self) -> (r: Self)
        ensures
            r.statements@.len() == self.statements@.len(),
            r.variable@ == self.variable@,
        decreases *self,
    {
        RangedForLoop {
            tag: self.tag.clone(),
            statements: clone_statements(&self.statements),
            variable: self.variable.clone(),
            start: self.start.clone(),
            end: self.end.clone(),
        }
    }
}

/// Contract ordering, on entry and exit of a ranged loop, where the iterator
/// variable had no binding on entry: once the bounds are evaluated, the
/// pre-condition is validated first, before any iteration; a failure of it
/// ends the loop, and the loop's frame is gone. Where it and the iterations
/// succeed, the post-condition is validated last, after the loop's frame is
/// gone, and decides the result.
pub proof fn lemma_ranged_loop_phases(
    repetition: RangedForLoop,
    start: Integer,
    end: Integer,
    frames: Frames,
    contracts: ContractMap,
    fuel: nat,
)
    ensures
        ({
            let contract = contract_for(contracts, repetition.tag);
            let tag = tag_text(repetition.tag);
            let whole = repetition.repeat(start, end, None, frames, contracts, fuel);
            let entered = verdict(contract.pre_condition, tag, frames, contracts, fuel);
            let rounds = repetition.iterate(
                contract,
                start.as_usize_spec(),
                end.as_usize_spec(),
                Value::Unit,
                entered.frames,
                contracts,
                fuel,
            );
            let left = verdict(
                contract.post_condition,
                tag,
                rounds.frames.drop_last(),
                contracts,
                fuel,
            );
            &&& entered.result is Err ==> whole == entered.unwound()
            &&& entered.result is Ok && rounds.result is Err ==> whole == rounds.unwound()
            &&& entered.result is Ok && rounds.result is Ok && left.result is Err ==> whole == left
            &&& entered.result is Ok && rounds.result is Ok && left.result is Ok ==> whole == (
            Outcome { result: rounds.result, frames: left.frames })
        }),
{
}

/// Contract ordering, within a ranged loop: an iteration runs the body in a
/// frame of its own that binds the iterator variable to the index; where
/// the body succeeds, the maintenance condition is validated exactly once,
/// after that frame is gone and before the next index is taken up.
pub proof fn lemma_ranged_loop_step(
    repetition: RangedForLoop,
    contract: Contract,
    index: usize,
    end: usize,
    last: Value,
    frames: Frames,
    contracts: ContractMap,
    fuel: nat,
)
    requires
        index < end,
        repetition.variable is Variable,
    ensures
        ({
            let whole = repetition.iterate(contract, index, end, last, frames, contracts, fuel);
            let inner = bind(
                frames.push(Map::empty()),
                repetition.variable@,
                Value::Integer(Integer::Usize(index)),
            );
            let body = run_statements(
                repetition.statements@,
                0,
                last,
                inner->Ok_0,
                contracts,
                fuel,
            ).unwound();
            let kept = verdict(
                contract.maintenance_condition,
                tag_text(repetition.tag),
                body.frames,
                contracts,
                fuel,
            );
            &&& inner is Ok
            &&& body.result is Err ==> whole == body
            &&& body.result is Ok && kept.result is Err ==> whole == kept
            &&& body.result is Ok && kept.result is Ok ==> whole == repetition.iterate(
                contract,
                (index + 1) as usize,
                end,
                body.result->Ok_0,
                kept.frames,
                contracts,
                fuel,
            )
        }),
{
}

/// A ranged loop over an empty range, where the iterator variable had no
/// binding on entry, runs no iteration and still validates its pre-condition
/// and, where that holds, its post-condition, in this order; its value is
/// unit.
pub proof fn lemma_empty_range_keeps_contract(
    repetition: RangedForLoop,
    start: Integer,
    end: Integer,
    frames: Frames,
    contracts: ContractMap,
    fuel: nat,
)
    requires
        start.as_usize_spec() >= end.as_usize_spec(),
    ensures
        ({
            let contract = contract_for(contracts, repetition.tag);
            let tag = tag_text(repetition.tag);
            let whole = repetition.repeat(start, end, None, frames, contracts, fuel);
            let entered = verdict(contract.pre_condition, tag, frames, contracts, fuel);
            let left = verdict(
                contract.post_condition,
                tag,
                entered.frames.drop_last(),
                contracts,
                fuel,
            );
            &&& entered.result is Err ==> whole == entered.unwound()
            &&& entered.result is Ok && left.result is Err ==> whole == left
            &&& entered.result is Ok && left.result is Ok ==> whole == Outcome::done(
                Value::Unit,
                left.frames,
            )
        }),
{
}

/// Contract ordering, for a while loop: the pre-condition is validated
/// first, before the condition of the loop is looked at; where it and the
/// iterations succeed, the post-condition is validated last and decides the
/// result.
pub proof fn lemma_while_loop_phases(
    repetition: WhileLoop,
    frames: Frames,
    contracts: ContractMap,
    fuel: nat,
)
    ensures
        ({
            let contract = contract_for(contracts, repetition.tag);
            let tag = tag_text(repetition.tag);
            let whole = repetition.evaluate(frames, contracts, fuel);
            let entered = verdict(contract.pre_condition, tag, frames, contracts, fuel);
            let rounds = repetition.iterate(contract, Value::Unit, entered.frames, contracts, fuel);
            let left = verdict(contract.post_condition, tag, rounds.frames, contracts, fuel);
            &&& entered.result is Err ==> whole == entered
            &&& entered.result is Ok && rounds.result is Err ==> whole == rounds
            &&& entered.result is Ok && rounds.result is Ok && left.result is Err ==> whole == left
            &&& entered.result is Ok && rounds.result is Ok && left.result is Ok ==> whole == (
            Outcome { result: rounds.result, frames: left.frames })
        }),
{
}

/// Contract ordering, within a while loop: where the condition is `true`
/// and fuel is left, the body runs in a frame of its own; where it
/// succeeds, the maintenance condition is validated exactly once, after
/// that frame is gone and before the condition is looked at again.
pub proof fn lemma_while_loop_step(
    repetition: WhileLoop,
    contract: Contract,
    last: Value,
    frames: Frames,
    contracts: ContractMap,
    fuel: nat,
)
    requires
        fuel > 0,
        repetition.condition.evaluate(frames, contracts, fuel).result == Ok::<Value, Failure>(
            Value::Bool(true),
        ),
    ensures
        ({
            let whole = repetition.iterate(contract, last, frames, contracts, fuel);
            let condition = repetition.condition.evaluate(frames, contracts, fuel);
            let body = run_statements(
                repetition.statements@,
                0,
                last,
                condition.frames.push(Map::empty()),
                contracts,
                (fuel - 1) as nat,
            ).unwound();
            let kept = verdict(
                contract.maintenance_condition,
                tag_text(repetition.tag),
                body.frames,
                contracts,
                (fuel - 1) as nat,
            );
            &&& body.result is Err ==> whole == body
            &&& body.result is Ok && kept.result is Err ==> whole == kept
            &&& body.result is Ok && kept.result is Ok ==> whole == repetition.iterate(
                contract,
                body.result->Ok_0,
                kept.frames,
                contracts,
                (fuel - 1) as nat,
            )
        }),
{
}

} // verus!
