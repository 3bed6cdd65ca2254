//! What every evaluation keeps of the environment: the number of frames, the
//! names that each frame binds, and whatever is shadowed.

use vstd::prelude::*;
use crate::expressions::conditions::{Condition, If};
use crate::expressions::functions::{Function, FunctionBuilder, FunctionCall, parameters};
use crate::expressions::integer::Integer;
use crate::expressions::loops::{
    Contract,
    Loop,
    RangedForLoop,
    WhileLoop,
    contract_for,
    remaining,
    tag_text,
    verdict,
};
use crate::expressions::operation::Operation;
use crate::expressions::reference::Reference;
use crate::expressions::statements::{Statement, run_statements};
use crate::expressions::{Expression, evaluate_all};
use crate::interpreter::context::ContractMap;
use crate::interpreter::model::{
    Frames,
    Place,
    Value,
    bind,
    keeps,
    lemma_bind_changes_nothing_below,
    lemma_bind_keeps,
    lemma_keeps_around_scope,
    lemma_keeps_below,
    lemma_keeps_depth,
    lemma_keeps_in_sequence,
    lemma_keeps_itself,
    lemma_same_binding_below,
    lemma_same_binding_in_sequence,
    lemma_same_binding_itself,
    lemma_same_binding_same_lookup,
    lemma_scope_shields,
    lemma_store_keeps,
    lookup,
    resolve,
    same_binding,
    store,
};

verus! {

/// The evaluation of an expression keeps the environment.
pub proof fn lemma_expression_keeps(
    expression: Expression,
    frames: Frames,
    contracts: ContractMap,
    fuel: nat,
)
    requires
        frames.len() > 0,
    ensures
        keeps(frames, expression.evaluate(frames, contracts, fuel).frames),
        expression.evaluate(frames, contracts, fuel).frames.len() == frames.len(),
    decreases 4 * fuel + 3, expression, 0nat,
{
    lemma_keeps_itself(frames);
    match expression {
        Expression::Vector(items) => {
            lemma_all_keep(items@, 0, Seq::empty(), frames, contracts, fuel);
        },
        Expression::IndexedAccessExpression(access) => {
            lemma_expression_keeps(*access.index, frames, contracts, fuel);
        },
        Expression::Operation(operation) => {
            lemma_operation_keeps(*operation, frames, contracts, fuel);
        },
        Expression::Condition(condition) => {
            match *condition {
                Condition::If(conditional) => {
                    lemma_if_keeps(conditional, frames, contracts, fuel);
                },
            }
        },
        Expression::Loop(repetition) => {
            match *repetition {
                Loop::While(repetition) => {
                    lemma_while_keeps(repetition, frames, contracts, fuel);
                },
                Loop::RangedFor(repetition) => {
                    lemma_ranged_keeps(repetition, frames, contracts, fuel);
                },
            }
        },
        Expression::FunctionCall(call) => {
            lemma_all_keep(call.params@, 0, Seq::empty(), frames, contracts, fuel);
        },
        Expression::Block(block) => {
            let inner = frames.push(Map::empty());
            lemma_statements_keep(block.statements@, 0, Value::Unit, inner, contracts, fuel);
            lemma_keeps_around_scope(
                frames,
                Map::empty(),
                run_statements(block.statements@, 0, Value::Unit, inner, contracts, fuel).frames,
            );
        },
        Expression::MethodCall(call) => {
            lemma_expression_keeps(*call.expression, frames, contracts, fuel);
        },
        _ => {},
    }
}

/// The evaluation of a list of expressions keeps the environment.
pub proof fn lemma_all_keep(
    items: Seq<Expression>,
    from: nat,
    done: Seq<Value>,
    frames: Frames,
    contracts: ContractMap,
    fuel: nat,
)
    requires
        frames.len() > 0,
    ensures
        keeps(frames, evaluate_all(items, from, done, frames, contracts, fuel).frames),
        evaluate_all(items, from, done, frames, contracts, fuel).frames.len() == frames.len(),
    decreases 4 * fuel + 3, items, items.len() - from,
{
    lemma_keeps_itself(frames);
    if from < items.len() {
        let item = items[from as int].evaluate(frames, contracts, fuel);
        lemma_expression_keeps(items[from as int], frames, contracts, fuel);
        match item.result {
            Ok(value) => {
                lemma_all_keep(items, from + 1, done.push(value), item.frames, contracts, fuel);
                lemma_keeps_in_sequence(
                    frames,
                    item.frames,
                    evaluate_all(
                        items,
                        from + 1,
                        done.push(value),
                        item.frames,
                        contracts,
                        fuel,
                    ).frames,
                );
            },
            Err(_) => {},
        }
    }
}

/// The execution of a statement list keeps the environment.
pub proof fn lemma_statements_keep(
    statements: Seq<Statement>,
    from: nat,
    last: Value,
    frames: Frames,
    contracts: ContractMap,
    fuel: nat,
)
    requires
        frames.len() > 0,
    ensures
        keeps(frames, run_statements(statements, from, last, frames, contracts, fuel).frames),
        run_statements(statements, from, last, frames, contracts, fuel).frames.len()
            == frames.len(),
    decreases 4 * fuel + 3, statements, statements.len() - from,
{
    lemma_keeps_itself(frames);
    if from < statements.len() {
        let step = statements[from as int].evaluate(frames, contracts, fuel);
        lemma_statement_keeps(statements[from as int], frames, contracts, fuel);
        match step.result {
            Ok(value) => {
                lemma_statements_keep(statements, from + 1, value, step.frames, contracts, fuel);
                lemma_keeps_in_sequence(
                    frames,
                    step.frames,
                    run_statements(statements, from + 1, value, step.frames, contracts, fuel).frames,
                );
            },
            Err(_) => {},
        }
    }
}

/// A write, where it succeeds, keeps the environment and its depth.
proof fn lemma_written_keeps(frames: Frames, place: Place, value: Value)
    requires
        frames.len() > 0,
    ensures
        store(frames, place, value) matches Ok(after) ==> keeps(frames, after) && after.len()
            == frames.len(),
{
    lemma_store_keeps(frames, place, value);
    match store(frames, place, value) {
        Ok(after) => {
            lemma_keeps_depth(frames, after);
        },
        Err(_) => {},
    }
}

/// The execution of a statement keeps the environment.
pub proof fn lemma_statement_keeps(
    statement: Statement,
    frames: Frames,
    contracts: ContractMap,
    fuel: nat,
)
    requires
        frames.len() > 0,
    ensures
        keeps(frames, statement.evaluate(frames, contracts, fuel).frames),
        statement.evaluate(frames, contracts, fuel).frames.len() == frames.len(),
    decreases 4 * fuel + 3, statement, 0nat,
{
    match statement {
        Statement::Assignment(reference, expression) => {
            let right = expression.evaluate(frames, contracts, fuel);
            lemma_expression_keeps(expression, frames, contracts, fuel);
            match right.result {
                Ok(value) => {
                    lemma_written_keeps(right.frames, reference@, value);
                    match store(right.frames, reference@, value) {
                        Ok(after) => {
                            lemma_keeps_in_sequence(frames, right.frames, after);
                        },
                        Err(_) => {},
                    }
                },
                Err(_) => {},
            }
        },
        Statement::IndexedAssigment(key, expression) => {
            let index = key.index.evaluate(frames, contracts, fuel);
            lemma_expression_keeps(*key.index, frames, contracts, fuel);
            match index.result {
                Ok(Value::Integer(i)) => {
                    let right = expression.evaluate(index.frames, contracts, fuel);
                    lemma_expression_keeps(expression, index.frames, contracts, fuel);
                    lemma_keeps_in_sequence(frames, index.frames, right.frames);
                    match right.result {
                        Ok(value) => {
                            let place = Place::Element(key.variable@, i.as_usize_spec());
                            lemma_written_keeps(right.frames, place, value);
                            match store(right.frames, place, value) {
                                Ok(after) => {
                                    lemma_keeps_in_sequence(frames, right.frames, after);
                                },
                                Err(_) => {},
                            }
                        },
                        Err(_) => {},
                    }
                },
                _ => {},
            }
        },
        Statement::Expression(expression) => {
            lemma_expression_keeps(expression, frames, contracts, fuel);
        },
    }
}

/// The evaluation of an operation keeps the environment.
pub proof fn lemma_operation_keeps(
    operation: Operation,
    frames: Frames,
    contracts: ContractMap,
    fuel: nat,
)
    requires
        frames.len() > 0,
    ensures
        keeps(frames, operation.evaluate(frames, contracts, fuel).frames),
        operation.evaluate(frames, contracts, fuel).frames.len() == frames.len(),
    decreases 4 * fuel + 3, operation, 0nat,
{
    let left = operation.left_spec().evaluate(frames, contracts, fuel);
    lemma_expression_keeps(*operation.left_spec(), frames, contracts, fuel);
    match left.result {
        Ok(_) => {
            let right = operation.right_spec().evaluate(left.frames, contracts, fuel);
            lemma_expression_keeps(*operation.right_spec(), left.frames, contracts, fuel);
            lemma_keeps_in_sequence(frames, left.frames, right.frames);
        },
        Err(_) => {},
    }
}

/// The evaluation of a conditional keeps the environment.
pub proof fn lemma_if_keeps(conditional: If, frames: Frames, contracts: ContractMap, fuel: nat)
    requires
        frames.len() > 0,
    ensures
        keeps(frames, conditional.evaluate(frames, contracts, fuel).frames),
        conditional.evaluate(frames, contracts, fuel).frames.len() == frames.len(),
    decreases 4 * fuel + 3, conditional, 0nat,
{
    let condition = conditional.condition.evaluate(frames, contracts, fuel);
    lemma_expression_keeps(conditional.condition, frames, contracts, fuel);
    match condition.result {
        Ok(Value::Bool(true)) => {
            lemma_statements_keep(
                conditional.statements@,
                0,
                Value::Unit,
                condition.frames,
                contracts,
                fuel,
            );
            lemma_keeps_in_sequence(
                frames,
                condition.frames,
                conditional.evaluate(frames, contracts, fuel).frames,
            );
        },
        Ok(Value::Bool(false)) => {
            match conditional.else_clause {
                Some(otherwise) => {
                    lemma_expression_keeps(otherwise, condition.frames, contracts, fuel);
                    lemma_keeps_in_sequence(
                        frames,
                        condition.frames,
                        conditional.evaluate(frames, contracts, fuel).frames,
                    );
                },
                None => {},
            }
        },
        _ => {},
    }
}

/// The run of a function keeps the environment in which it is called.
pub proof fn lemma_function_keeps(
    function: Function,
    frames: Frames,
    contracts: ContractMap,
    arguments: Seq<Value>,
    fuel: nat,
)
    ensures
        keeps(frames, function.run(frames, contracts, arguments, fuel).frames),
        function.run(frames, contracts, arguments, fuel).frames.len() == frames.len(),
    decreases 4 * fuel + 3, function, 0nat,
{
    lemma_keeps_itself(frames);
    if arguments.len() == function.args@.len() {
        let scope = parameters(function.args@, arguments, arguments.len());
        lemma_statements_keep(
            function.statements@,
            0,
            Value::Unit,
            frames.push(scope),
            contracts,
            fuel,
        );
        lemma_keeps_around_scope(
            frames,
            scope,
            run_statements(
                function.statements@,
                0,
                Value::Unit,
                frames.push(scope),
                contracts,
                fuel,
            ).frames,
        );
    }
}

/// The validation of a condition keeps the environment.
pub proof fn lemma_verdict_keeps(
    condition: Option<(String, FunctionBuilder)>,
    tag: Seq<char>,
    frames: Frames,
    contracts: ContractMap,
    fuel: nat,
)
    ensures
        keeps(frames, verdict(condition, tag, frames, contracts, fuel).frames),
        verdict(condition, tag, frames, contracts, fuel).frames.len() == frames.len(),
        condition is None ==> verdict(condition, tag, frames, contracts, fuel).frames == frames,
    decreases 4 * fuel,
{
    lemma_keeps_itself(frames);
    match condition {
        Some((_, builder)) => {
            if fuel > 0 {
                lemma_function_keeps(
                    *builder.function,
                    frames,
                    contracts,
                    Seq::empty(),
                    (fuel - 1) as nat,
                );
            }
        },
        None => {},
    }
}

/// The iterations of a while loop keep the environment.
pub proof fn lemma_while_iterations_keep(
    repetition: WhileLoop,
    contract: Contract,
    last: Value,
    frames: Frames,
    contracts: ContractMap,
    fuel: nat,
)
    requires
        frames.len() > 0,
    ensures
        keeps(frames, repetition.iterate(contract, last, frames, contracts, fuel).frames),
        repetition.iterate(contract, last, frames, contracts, fuel).frames.len() == frames.len(),
    decreases 4 * fuel + 3, repetition, 0nat,
{
    let condition = repetition.condition.evaluate(frames, contracts, fuel);
    lemma_expression_keeps(repetition.condition, frames, contracts, fuel);
    match condition.result {
        Ok(Value::Bool(true)) => {
            if fuel > 0 {
                let less = (fuel - 1) as nat;
                let inner = condition.frames.push(Map::empty());
                let ran = run_statements(repetition.statements@, 0, last, inner, contracts, less);
                lemma_statements_keep(repetition.statements@, 0, last, inner, contracts, less);
                lemma_keeps_around_scope(condition.frames, Map::empty(), ran.frames);
                let body = ran.unwound();
                lemma_keeps_in_sequence(frames, condition.frames, body.frames);
                match body.result {
                    Ok(value) => {
                        let kept = verdict(
                            contract.maintenance_condition,
                            tag_text(repetition.tag),
                            body.frames,
                            contracts,
                            less,
                        );
                        lemma_verdict_keeps(
                            contract.maintenance_condition,
                            tag_text(repetition.tag),
                            body.frames,
                            contracts,
                            less,
                        );
                        lemma_keeps_in_sequence(frames, body.frames, kept.frames);
                        match kept.result {
                            Ok(_) => {
                                lemma_while_iterations_keep(
                                    repetition,
                                    contract,
                                    value,
                                    kept.frames,
                                    contracts,
                                    less,
                                );
                                lemma_keeps_in_sequence(
                                    frames,
                                    kept.frames,
                                    repetition.iterate(
                                        contract,
                                        value,
                                        kept.frames,
                                        contracts,
                                        less,
                                    ).frames,
                                );
                            },
                            Err(_) => {},
                        }
                    },
                    Err(_) => {},
                }
            }
        },
        _ => {},
    }
}

/// The evaluation of a while loop keeps the environment.
pub proof fn lemma_while_keeps(
    repetition: WhileLoop,
    frames: Frames,
    contracts: ContractMap,
    fuel: nat,
)
    requires
        frames.len() > 0,
    ensures
        keeps(frames, repetition.evaluate(frames, contracts, fuel).frames),
        repetition.evaluate(frames, contracts, fuel).frames.len() == frames.len(),
    decreases 4 * fuel + 3, repetition, 1nat,
{
    let contract = contract_for(contracts, repetition.tag);
    let tag = tag_text(repetition.tag);
    let entered = verdict(contract.pre_condition, tag, frames, contracts, fuel);
    lemma_verdict_keeps(contract.pre_condition, tag, frames, contracts, fuel);
    match entered.result {
        Ok(_) => {
            let body = repetition.iterate(contract, Value::Unit, entered.frames, contracts, fuel);
            lemma_while_iterations_keep(
                repetition,
                contract,
                Value::Unit,
                entered.frames,
                contracts,
                fuel,
            );
            lemma_keeps_in_sequence(frames, entered.frames, body.frames);
            match body.result {
                Ok(_) => {
                    let left = verdict(contract.post_condition, tag, body.frames, contracts, fuel);
                    lemma_verdict_keeps(contract.post_condition, tag, body.frames, contracts, fuel);
                    lemma_keeps_in_sequence(frames, body.frames, left.frames);
                },
                Err(_) => {},
            }
        },
        Err(_) => {},
    }
}

/// Whether a ranged loop shields the bindings of its iterator variable: it
/// iterates over a variable and has no maintenance condition.
pub open spec fn shields(repetition: RangedForLoop, contract: Contract, name: Seq<char>) -> bool {
    repetition.variable@ == Place::Variable(name) && contract.maintenance_condition is None
}

/// The iterations of a ranged loop keep the environment; where the loop has
/// no maintenance condition, they leave every binding of the iterator
/// variable as it was.
pub proof fn lemma_ranged_iterations_keep(
    repetition: RangedForLoop,
    contract: Contract,
    index: usize,
    end: usize,
    last: Value,
    frames: Frames,
    contracts: ContractMap,
    fuel: nat,
)
    requires
        frames.len() > 0,
    ensures
        keeps(
            frames,
            repetition.iterate(contract, index, end, last, frames, contracts, fuel).frames,
        ),
        repetition.iterate(contract, index, end, last, frames, contracts, fuel).frames.len()
            == frames.len(),
        forall|name: Seq<char>|
            shields(repetition, contract, name) ==> same_binding(
                frames,
                repetition.iterate(contract, index, end, last, frames, contracts, fuel).frames,
                name,
            ),
    decreases 4 * fuel + 3, repetition, remaining(index, end),
{
    let whole = repetition.iterate(contract, index, end, last, frames, contracts, fuel);
    lemma_keeps_itself(frames);
    assert forall|name: Seq<char>| shields(repetition, contract, name) implies same_binding(
        frames,
        frames,
        name,
    ) by {
        lemma_same_binding_itself(frames, name);
    }
    if index < end {
        let entered = frames.push(Map::empty());
        let counter = Value::Integer(Integer::Usize(index));
        lemma_bind_keeps(entered, repetition.variable@, counter);
        match bind(entered, repetition.variable@, counter) {
            Ok(inner) => {
                lemma_keeps_depth(entered, inner);
                let ran = run_statements(repetition.statements@, 0, last, inner, contracts, fuel);
                lemma_statements_keep(repetition.statements@, 0, last, inner, contracts, fuel);
                lemma_keeps_in_sequence(entered, inner, ran.frames);
                lemma_keeps_around_scope(frames, Map::empty(), ran.frames);
                let body = ran.unwound();
                assert forall|name: Seq<char>|
                    shields(repetition, contract, name) implies same_binding(
                    frames,
                    body.frames,
                    name,
                ) by {
                    let scope = Map::<Seq<char>, Value>::empty().insert(name, counter);
                    assert(inner =~= frames.push(scope));
                    lemma_scope_shields(frames, scope, ran.frames, name);
                }
                match body.result {
                    Ok(value) => {
                        let kept = verdict(
                            contract.maintenance_condition,
                            tag_text(repetition.tag),
                            body.frames,
                            contracts,
                            fuel,
                        );
                        lemma_verdict_keeps(
                            contract.maintenance_condition,
                            tag_text(repetition.tag),
                            body.frames,
                            contracts,
                            fuel,
                        );
                        lemma_keeps_in_sequence(frames, body.frames, kept.frames);
                        match kept.result {
                            Ok(_) => {
                                let rest = repetition.iterate(
                                    contract,
                                    (index + 1) as usize,
                                    end,
                                    value,
                                    kept.frames,
                                    contracts,
                                    fuel,
                                );
                                lemma_ranged_iterations_keep(
                                    repetition,
                                    contract,
                                    (index + 1) as usize,
                                    end,
                                    value,
                                    kept.frames,
                                    contracts,
                                    fuel,
                                );
                                lemma_keeps_in_sequence(frames, kept.frames, rest.frames);
                                assert forall|name: Seq<char>|
                                    shields(repetition, contract, name) implies same_binding(
                                    frames,
                                    rest.frames,
                                    name,
                                ) by {
                                    lemma_same_binding_in_sequence(
                                        frames,
                                        kept.frames,
                                        rest.frames,
                                        name,
                                    );
                                }
                            },
                            Err(_) => {},
                        }
                    },
                    Err(_) => {},
                }
            },
            Err(_) => {},
        }
    }
}

/// What follows the bounds of a ranged loop keeps the environment around
/// the loop's own frame.
pub proof fn lemma_range_keeps(
    repetition: RangedForLoop,
    start: Integer,
    end: Integer,
    snapshot: Option<Value>,
    frames: Frames,
    contracts: ContractMap,
    fuel: nat,
)
    requires
        frames.len() > 1,
    ensures
        keeps(
            frames.drop_last(),
            repetition.repeat(start, end, snapshot, frames, contracts, fuel).frames,
        ),
        repetition.repeat(start, end, snapshot, frames, contracts, fuel).frames.len()
            == frames.len() - 1,
    decreases 4 * fuel + 3, repetition, usize::MAX + 1,
{
    let contract = contract_for(contracts, repetition.tag);
    let tag = tag_text(repetition.tag);
    let entered = verdict(contract.pre_condition, tag, frames, contracts, fuel);
    lemma_verdict_keeps(contract.pre_condition, tag, frames, contracts, fuel);
    lemma_keeps_below(frames, entered.frames);
    let below = frames.drop_last();
    match entered.result {
        Ok(_) => {
            let body = repetition.iterate(
                contract,
                start.as_usize_spec(),
                end.as_usize_spec(),
                Value::Unit,
                entered.frames,
                contracts,
                fuel,
            );
            lemma_ranged_iterations_keep(
                repetition,
                contract,
                start.as_usize_spec(),
                end.as_usize_spec(),
                Value::Unit,
                entered.frames,
                contracts,
                fuel,
            );
            lemma_keeps_in_sequence(frames, entered.frames, body.frames);
            lemma_keeps_below(frames, body.frames);
            match body.result {
                Ok(_) => {
                    if snapshot is Some {
                        lemma_bind_changes_nothing_below(
                            body.frames,
                            repetition.variable@,
                            snapshot->0,
                        );
                    }
                    let restored = match snapshot {
                        Some(previous) => bind(body.frames, repetition.variable@, previous),
                        None => Ok(body.frames),
                    };
                    match restored {
                        Ok(settled) => {
                            let left = verdict(
                                contract.post_condition,
                                tag,
                                settled.drop_last(),
                                contracts,
                                fuel,
                            );
                            lemma_verdict_keeps(
                                contract.post_condition,
                                tag,
                                settled.drop_last(),
                                contracts,
                                fuel,
                            );
                            lemma_keeps_in_sequence(below, settled.drop_last(), left.frames);
                        },
                        Err(_) => {},
                    }
                },
                Err(_) => {},
            }
        },
        Err(_) => {},
    }
}

/// What follows the bounds of a ranged loop over a variable, where the loop
/// has no contract, leaves every binding of the variable around the loop's
/// own frame as it was.
pub proof fn lemma_range_shields(
    repetition: RangedForLoop,
    start: Integer,
    end: Integer,
    snapshot: Option<Value>,
    name: Seq<char>,
    frames: Frames,
    contracts: ContractMap,
    fuel: nat,
)
    requires
        frames.len() > 1,
        repetition.variable@ == Place::Variable(name),
        contract_for(contracts, repetition.tag) == Contract::empty(),
    ensures
        same_binding(
            frames.drop_last(),
            repetition.repeat(start, end, snapshot, frames, contracts, fuel).frames,
            name,
        ),
{
    let contract = Contract::empty();
    let body = repetition.iterate(
        contract,
        start.as_usize_spec(),
        end.as_usize_spec(),
        Value::Unit,
        frames,
        contracts,
        fuel,
    );
    lemma_ranged_iterations_keep(
        repetition,
        contract,
        start.as_usize_spec(),
        end.as_usize_spec(),
        Value::Unit,
        frames,
        contracts,
        fuel,
    );
    assert(shields(repetition, contract, name));
    lemma_same_binding_below(frames, body.frames, name);
    if snapshot is Some {
        lemma_bind_changes_nothing_below(body.frames, repetition.variable@, snapshot->0);
    }
}

/// The evaluation of a ranged loop keeps the environment.
pub proof fn lemma_ranged_keeps(
    repetition: RangedForLoop,
    frames: Frames,
    contracts: ContractMap,
    fuel: nat,
)
    requires
        frames.len() > 0,
    ensures
        keeps(frames, repetition.evaluate(frames, contracts, fuel).frames),
        repetition.evaluate(frames, contracts, fuel).frames.len() == frames.len(),
    decreases 4 * fuel + 3, repetition, usize::MAX + 2,
{
    let entered = frames.push(Map::empty());
    let snapshot = match resolve(entered, repetition.variable@) {
        Ok(previous) => Some(previous),
        Err(_) => None,
    };
    let start = repetition.start.evaluate(entered, contracts, fuel);
    lemma_expression_keeps(repetition.start, entered, contracts, fuel);
    lemma_keeps_around_scope(frames, Map::empty(), start.frames);
    match start.result {
        Ok(from) => {
            let end = repetition.end.evaluate(start.frames, contracts, fuel);
            lemma_expression_keeps(repetition.end, start.frames, contracts, fuel);
            lemma_keeps_in_sequence(entered, start.frames, end.frames);
            lemma_keeps_around_scope(frames, Map::empty(), end.frames);
            match end.result {
                Ok(to) => {
                    match (from, to) {
                        (Value::Integer(a), Value::Integer(b)) => {
                            lemma_range_keeps(
                                repetition,
                                a,
                                b,
                                snapshot,
                                end.frames,
                                contracts,
                                fuel,
                            );
                            lemma_keeps_in_sequence(
                                frames,
                                end.frames.drop_last(),
                                repetition.evaluate(frames, contracts, fuel).frames,
                            );
                        },
                        _ => {},
                    }
                },
                Err(_) => {},
            }
        },
        Err(_) => {},
    }
}

/// Frame balance: whatever an expression evaluates to, and whether its
/// evaluation succeeds or fails, the environment has as many frames after it
/// as before it: every frame that was pushed has been popped.
pub proof fn lemma_frames_are_balanced(
    expression: Expression,
    frames: Frames,
    contracts: ContractMap,
    fuel: nat,
)
    requires
        frames.len() > 0,
    ensures
        expression.evaluate(frames, contracts, fuel).frames.len() == frames.len(),
{
    lemma_expression_keeps(expression, frames, contracts, fuel);
}

/// Frame balance for calls: a function leaves the environment in which it
/// is called with as many frames as it found, whether it succeeds or fails.
pub proof fn lemma_calls_are_balanced(
    function: Function,
    frames: Frames,
    contracts: ContractMap,
    arguments: Seq<Value>,
    fuel: nat,
)
    ensures
        function.run(frames, contracts, arguments, fuel).frames.len() == frames.len(),
{
    lemma_function_keeps(function, frames, contracts, arguments, fuel);
}

/// Reference restoration: after a ranged loop over a variable that has no
/// contract and whose bounds evaluate, the variable resolves to what it
/// resolved to once the bounds were evaluated, whatever the body did to the
/// iterator.
pub proof fn lemma_ranged_loop_restores(
    repetition: RangedForLoop,
    name: Seq<char>,
    frames: Frames,
    contracts: ContractMap,
    fuel: nat,
)
    requires
        frames.len() > 0,
        repetition.variable@ == Place::Variable(name),
        repetition.restores(frames, contracts, fuel),
    ensures
        lookup(repetition.evaluate(frames, contracts, fuel).frames, name) == lookup(
            repetition.bounded(frames, contracts, fuel),
            name,
        ),
{
    let entered = frames.push(Map::empty());
    let snapshot = match resolve(entered, repetition.variable@) {
        Ok(previous) => Some(previous),
        Err(_) => None,
    };
    let start = repetition.start.evaluate(entered, contracts, fuel);
    lemma_expression_keeps(repetition.start, entered, contracts, fuel);
    let end = repetition.end.evaluate(start.frames, contracts, fuel);
    lemma_expression_keeps(repetition.end, start.frames, contracts, fuel);
    match (start.result, end.result) {
        (Ok(Value::Integer(a)), Ok(Value::Integer(b))) => {
            lemma_range_shields(repetition, a, b, snapshot, name, end.frames, contracts, fuel);
            lemma_same_binding_same_lookup(
                end.frames.drop_last(),
                repetition.evaluate(frames, contracts, fuel).frames,
                name,
            );
        },
        _ => {},
    }
}

/// In a ranged loop over a variable, the restoring of the binding that the
/// variable had on entry cannot be observed: the loop's own frame, in which
/// it is restored, is gone right after.
pub proof fn lemma_restoring_is_unobservable(
    repetition: RangedForLoop,
    start: Integer,
    end: Integer,
    previous: Value,
    frames: Frames,
    contracts: ContractMap,
    fuel: nat,
)
    requires
        frames.len() > 1,
        repetition.variable is Variable,
    ensures
        repetition.repeat(start, end, Some(previous), frames, contracts, fuel)
            == repetition.repeat(start, end, None, frames, contracts, fuel),
{
    let contract = contract_for(contracts, repetition.tag);
    let tag = tag_text(repetition.tag);
    let entered = verdict(contract.pre_condition, tag, frames, contracts, fuel);
    lemma_verdict_keeps(contract.pre_condition, tag, frames, contracts, fuel);
    if entered.result is Ok {
        let body = repetition.iterate(
            contract,
            start.as_usize_spec(),
            end.as_usize_spec(),
            Value::Unit,
            entered.frames,
            contracts,
            fuel,
        );
        lemma_ranged_iterations_keep(
            repetition,
            contract,
            start.as_usize_spec(),
            end.as_usize_spec(),
            Value::Unit,
            entered.frames,
            contracts,
            fuel,
        );
        if body.result is Ok {
            lemma_bind_changes_nothing_below(body.frames, repetition.variable@, previous);
        }
    }
}

} // verus!
