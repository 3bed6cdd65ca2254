//! Fuel is only a bound: an evaluation that does not run out of it comes out
//! the same with any larger amount.

use vstd::prelude::*;
use crate::expressions::conditions::{Condition, If};
use crate::expressions::functions::{Function, FunctionBuilder, FunctionCall};
use crate::expressions::integer::Integer;
use crate::expressions::loops::{
    Contract,
    Loop,
    RangedForLoop,
    WhileLoop,
    contract_for,
    tag_text,
    verdict,
};
use crate::expressions::block::Block;
use crate::expressions::method_call::MethodCall;
use crate::expressions::operation::Operation;
use crate::expressions::reference::IndexedAccessExpression;
use crate::expressions::statements::{Statement, run_statements};
use crate::expressions::{Expression, evaluate_all};
use crate::interpreter::context::ContractMap;
use crate::interpreter::model::{Failure, Frames, Value, bind, resolve};

verus! {

/// The evaluation did not stop for want of fuel.
pub open spec fn sufficed(result: Result<Value, Failure>) -> bool {
    result != Err::<Value, Failure>(Failure::FuelExhausted)
}

/// The evaluation of a list did not stop for want of fuel.
pub open spec fn sufficed_for_all(result: Result<Seq<Value>, Failure>) -> bool {
    result != Err::<Seq<Value>, Failure>(Failure::FuelExhausted)
}

/// An expression whose evaluation does not run out of fuel evaluates to the
/// same with any larger amount of fuel.
pub proof fn lemma_fuel_for_expression(
    expression: Expression,
    frames: Frames,
    contracts: ContractMap,
    fuel: nat,
    more: nat,
)
    requires
        fuel <= more,
        sufficed(expression.evaluate(frames, contracts, fuel).result),
    ensures
        expression.evaluate(frames, contracts, more) == expression.evaluate(frames, contracts, fuel),
    decreases 4 * fuel + 3, expression, 0nat,
{
    match expression {
        Expression::Vector(items) => {
            lemma_fuel_for_all(items@, 0, Seq::empty(), frames, contracts, fuel, more);
        },
        Expression::IndexedAccessExpression(access) => {
            lemma_fuel_for_expression(*access.index, frames, contracts, fuel, more);
        },
        Expression::Operation(operation) => {
            lemma_fuel_for_operation(*operation, frames, contracts, fuel, more);
        },
        Expression::Condition(condition) => {
            match *condition {
                Condition::If(conditional) => {
                    lemma_fuel_for_if(conditional, frames, contracts, fuel, more);
                },
            }
        },
        Expression::Loop(repetition) => {
            match *repetition {
                Loop::While(repetition) => {
                    lemma_fuel_for_while(repetition, frames, contracts, fuel, more);
                },
                Loop::RangedFor(repetition) => {
                    lemma_fuel_for_ranged(repetition, frames, contracts, fuel, more);
                },
            }
        },
        Expression::FunctionCall(call) => {
            lemma_fuel_for_call(call, frames, contracts, fuel, more);
        },
        Expression::Block(block) => {
            lemma_fuel_for_statements(
                block.statements@,
                0,
                Value::Unit,
                frames.push(Map::empty()),
                contracts,
                fuel,
                more,
            );
        },
        Expression::MethodCall(call) => {
            lemma_fuel_for_expression(*call.expression, frames, contracts, fuel, more);
        },
        _ => {},
    }
}

/// A list of expressions whose evaluation does not run out of fuel
/// evaluates to the same with any larger amount of fuel.
pub proof fn lemma_fuel_for_all(
    items: Seq<Expression>,
    from: nat,
    done: Seq<Value>,
    frames: Frames,
    contracts: ContractMap,
    fuel: nat,
    more: nat,
)
    requires
        fuel <= more,
        sufficed_for_all(evaluate_all(items, from, done, frames, contracts, fuel).result),
    ensures
        evaluate_all(items, from, done, frames, contracts, more) == evaluate_all(
            items,
            from,
            done,
            frames,
            contracts,
            fuel,
        ),
    decreases 4 * fuel + 3, items, items.len() - from,
{
    if from < items.len() {
        let item = items[from as int].evaluate(frames, contracts, fuel);
        lemma_fuel_for_expression(items[from as int], frames, contracts, fuel, more);
        match item.result {
            Ok(value) => {
                lemma_fuel_for_all(
                    items,
                    from + 1,
                    done.push(value),
                    item.frames,
                    contracts,
                    fuel,
                    more,
                );
            },
            Err(_) => {},
        }
    }
}

/// A statement list whose execution does not run out of fuel comes out the
/// same with any larger amount of fuel.
pub proof fn lemma_fuel_for_statements(
    statements: Seq<Statement>,
    from: nat,
    last: Value,
    frames: Frames,
    contracts: ContractMap,
    fuel: nat,
    more: nat,
)
    requires
        fuel <= more,
        sufficed(run_statements(statements, from, last, frames, contracts, fuel).result),
    ensures
        run_statements(statements, from, last, frames, contracts, more) == run_statements(
            statements,
            from,
            last,
            frames,
            contracts,
            fuel,
        ),
    decreases 4 * fuel + 3, statements, statements.len() - from,
{
    if from < statements.len() {
        let step = statements[from as int].evaluate(frames, contracts, fuel);
        lemma_fuel_for_statement(statements[from as int], frames, contracts, fuel, more);
        match step.result {
            Ok(value) => {
                lemma_fuel_for_statements(
                    statements,
                    from + 1,
                    value,
                    step.frames,
                    contracts,
                    fuel,
                    more,
                );
            },
            Err(_) => {},
        }
    }
}

/// A statement whose execution does not run out of fuel comes out the same
/// with any larger amount of fuel.
pub proof fn lemma_fuel_for_statement(
    statement: Statement,
    frames: Frames,
    contracts: ContractMap,
    fuel: nat,
    more: nat,
)
    requires
        fuel <= more,
        sufficed(statement.evaluate(frames, contracts, fuel).result),
    ensures
        statement.evaluate(frames, contracts, more) == statement.evaluate(frames, contracts, fuel),
    decreases 4 * fuel + 3, statement, 0nat,
{
    match statement {
        Statement::Assignment(_, expression) => {
            lemma_fuel_for_expression(expression, frames, contracts, fuel, more);
        },
        Statement::IndexedAssigment(key, expression) => {
            let index = key.index.evaluate(frames, contracts, fuel);
            lemma_fuel_for_expression(*key.index, frames, contracts, fuel, more);
            match index.result {
                Ok(Value::Integer(_)) => {
                    lemma_fuel_for_expression(expression, index.frames, contracts, fuel, more);
                },
                _ => {},
            }
        },
        Statement::Expression(expression) => {
            lemma_fuel_for_expression(expression, frames, contracts, fuel, more);
        },
    }
}

/// An operation whose evaluation does not run out of fuel evaluates to the
/// same with any larger amount of fuel.
pub proof fn lemma_fuel_for_operation(
    operation: Operation,
    frames: Frames,
    contracts: ContractMap,
    fuel: nat,
    more: nat,
)
    requires
        fuel <= more,
        sufficed(operation.evaluate(frames, contracts, fuel).result),
    ensures
        operation.evaluate(frames, contracts, more) == operation.evaluate(frames, contracts, fuel),
    decreases 4 * fuel + 3, operation, 0nat,
{
    let left = operation.left_spec().evaluate(frames, contracts, fuel);
    lemma_fuel_for_expression(*operation.left_spec(), frames, contracts, fuel, more);
    match left.result {
        Ok(_) => {
            lemma_fuel_for_expression(*operation.right_spec(), left.frames, contracts, fuel, more);
        },
        Err(_) => {},
    }
}

/// A conditional whose evaluation does not run out of fuel evaluates to the
/// same with any larger amount of fuel.
pub proof fn lemma_fuel_for_if(
    conditional: If,
    frames: Frames,
    contracts: ContractMap,
    fuel: nat,
    more: nat,
)
    requires
        fuel <= more,
        sufficed(conditional.evaluate(frames, contracts, fuel).result),
    ensures
        conditional.evaluate(frames, contracts, more) == conditional.evaluate(frames, contracts, fuel),
    decreases 4 * fuel + 3, conditional, 0nat,
{
    let condition = conditional.condition.evaluate(frames, contracts, fuel);
    lemma_fuel_for_expression(conditional.condition, frames, contracts, fuel, more);
    match condition.result {
        Ok(Value::Bool(true)) => {
            lemma_fuel_for_statements(
                conditional.statements@,
                0,
                Value::Unit,
                condition.frames,
                contracts,
                fuel,
                more,
            );
        },
        Ok(Value::Bool(false)) => {
            match conditional.else_clause {
                Some(otherwise) => {
                    lemma_fuel_for_expression(otherwise, condition.frames, contracts, fuel, more);
                },
                None => {},
            }
        },
        _ => {},
    }
}

/// A call whose evaluation does not run out of fuel evaluates to the same
/// with any larger amount of fuel.
pub proof fn lemma_fuel_for_call(
    call: FunctionCall,
    frames: Frames,
    contracts: ContractMap,
    fuel: nat,
    more: nat,
)
    requires
        fuel <= more,
        sufficed(call.evaluate(frames, contracts, fuel).result),
    ensures
        call.evaluate(frames, contracts, more) == call.evaluate(frames, contracts, fuel),
    decreases 4 * fuel + 3, call, 0nat,
{
    let arguments = evaluate_all(call.params@, 0, Seq::empty(), frames, contracts, fuel);
    lemma_fuel_for_all(call.params@, 0, Seq::empty(), frames, contracts, fuel, more);
    match arguments.result {
        Ok(values) => {
            lemma_fuel_for_function(
                *call.builder.function,
                Seq::empty(),
                call.builder.function.contracts,
                values,
                fuel,
                more,
            );
        },
        Err(_) => {},
    }
}

/// A function whose run does not run out of fuel comes out the same with
/// any larger amount of fuel.
pub proof fn lemma_fuel_for_function(
    function: Function,
    frames: Frames,
    contracts: ContractMap,
    arguments: Seq<Value>,
    fuel: nat,
    more: nat,
)
    requires
        fuel <= more,
        sufficed(function.run(frames, contracts, arguments, fuel).result),
    ensures
        function.run(frames, contracts, arguments, more) == function.run(
            frames,
            contracts,
            arguments,
            fuel,
        ),
    decreases 4 * fuel + 3, function, 0nat,
{
    if arguments.len() == function.args@.len() {
        lemma_fuel_for_statements(
            function.statements@,
            0,
            Value::Unit,
            frames.push(
                crate::expressions::functions::parameters(function.args@, arguments, arguments.len()),
            ),
            contracts,
            fuel,
            more,
        );
    }
}

/// The validation of a condition that does not run out of fuel comes out
/// the same with any larger amount of fuel.
pub proof fn lemma_fuel_for_verdict(
    condition: Option<(String, FunctionBuilder)>,
    tag: Seq<char>,
    frames: Frames,
    contracts: ContractMap,
    fuel: nat,
    more: nat,
)
    requires
        fuel <= more,
        sufficed(verdict(condition, tag, frames, contracts, fuel).result),
    ensures
        verdict(condition, tag, frames, contracts, more) == verdict(
            condition,
            tag,
            frames,
            contracts,
            fuel,
        ),
    decreases 4 * fuel,
{
    match condition {
        Some((_, builder)) => {
            lemma_fuel_for_function(
                *builder.function,
                frames,
                contracts,
                Seq::empty(),
                (fuel - 1) as nat,
                (more - 1) as nat,
            );
        },
        None => {},
    }
}

/// The iterations of a while loop that do not run out of fuel come out the
/// same with any larger amount of fuel.
pub proof fn lemma_fuel_for_while_iterations(
    repetition: WhileLoop,
    contract: Contract,
    last: Value,
    frames: Frames,
    contracts: ContractMap,
    fuel: nat,
    more: nat,
)
    requires
        fuel <= more,
        sufficed(repetition.iterate(contract, last, frames, contracts, fuel).result),
    ensures
        repetition.iterate(contract, last, frames, contracts, more) == repetition.iterate(
            contract,
            last,
            frames,
            contracts,
            fuel,
        ),
    decreases 4 * fuel + 3, repetition, 0nat,
{
    let condition = repetition.condition.evaluate(frames, contracts, fuel);
    lemma_fuel_for_expression(repetition.condition, frames, contracts, fuel, more);
    match condition.result {
        Ok(Value::Bool(true)) => {
            let less = (fuel - 1) as nat;
            let body = run_statements(
                repetition.statements@,
                0,
                last,
                condition.frames.push(Map::empty()),
                contracts,
                less,
            ).unwound();
            lemma_fuel_for_statements(
                repetition.statements@,
                0,
                last,
                condition.frames.push(Map::empty()),
                contracts,
                less,
                (more - 1) as nat,
            );
            match body.result {
                Ok(value) => {
                    let kept = verdict(
                        contract.maintenance_condition,
                        tag_text(repetition.tag),
                        body.frames,
                        contracts,
                        less,
                    );
                    lemma_fuel_for_verdict(
                        contract.maintenance_condition,
                        tag_text(repetition.tag),
                        body.frames,
                        contracts,
                        less,
                        (more - 1) as nat,
                    );
                    match kept.result {
                        Ok(_) => {
                            lemma_fuel_for_while_iterations(
                                repetition,
                                contract,
                                value,
                                kept.frames,
                                contracts,
                                less,
                                (more - 1) as nat,
                            );
                        },
                        Err(_) => {},
                    }
                },
                Err(_) => {},
            }
        },
        _ => {},
    }
}

/// A while loop whose evaluation does not run out of fuel evaluates to the
/// same with any larger amount of fuel.
pub proof fn lemma_fuel_for_while(
    repetition: WhileLoop,
    frames: Frames,
    contracts: ContractMap,
    fuel: nat,
    more: nat,
)
    requires
        fuel <= more,
        sufficed(repetition.evaluate(frames, contracts, fuel).result),
    ensures
        repetition.evaluate(frames, contracts, more) == repetition.evaluate(frames, contracts, fuel),
    decreases 4 * fuel + 3, repetition, 1nat,
{
    let contract = contract_for(contracts, repetition.tag);
    let tag = tag_text(repetition.tag);
    let entered = verdict(contract.pre_condition, tag, frames, contracts, fuel);
    lemma_fuel_for_verdict(contract.pre_condition, tag, frames, contracts, fuel, more);
    match entered.result {
        Ok(_) => {
            let body = repetition.iterate(contract, Value::Unit, entered.frames, contracts, fuel);
            lemma_fuel_for_while_iterations(
                repetition,
                contract,
                Value::Unit,
                entered.frames,
                contracts,
                fuel,
                more,
            );
            match body.result {
                Ok(_) => {
                    lemma_fuel_for_verdict(
                        contract.post_condition,
                        tag,
                        body.frames,
                        contracts,
                        fuel,
                        more,
                    );
                },
                Err(_) => {},
            }
        },
        Err(_) => {},
    }
}

/// The iterations of a ranged loop that do not run out of fuel come out the
/// same with any larger amount of fuel.
pub proof fn lemma_fuel_for_ranged_iterations(
    repetition: RangedForLoop,
    contract: Contract,
    index: usize,
    end: usize,
    last: Value,
    frames: Frames,
    contracts: ContractMap,
    fuel: nat,
    more: nat,
)
    requires
        fuel <= more,
        sufficed(repetition.iterate(contract, index, end, last, frames, contracts, fuel).result),
    ensures
        repetition.iterate(contract, index, end, last, frames, contracts, more)
            == repetition.iterate(contract, index, end, last, frames, contracts, fuel),
    decreases 4 * fuel + 3, repetition, crate::expressions::loops::remaining(index, end),
{
    if index < end {
        match bind(
            frames.push(Map::empty()),
            repetition.variable@,
            Value::Integer(Integer::Usize(index)),
        ) {
            Ok(inner) => {
                let body = run_statements(
                    repetition.statements@,
                    0,
                    last,
                    inner,
                    contracts,
                    fuel,
                ).unwound();
                lemma_fuel_for_statements(
                    repetition.statements@,
                    0,
                    last,
                    inner,
                    contracts,
                    fuel,
                    more,
                );
                match body.result {
                    Ok(value) => {
                        let kept = verdict(
                            contract.maintenance_condition,
                            tag_text(repetition.tag),
                            body.frames,
                            contracts,
                            fuel,
                        );
                        lemma_fuel_for_verdict(
                            contract.maintenance_condition,
                            tag_text(repetition.tag),
                            body.frames,
                            contracts,
                            fuel,
                            more,
                        );
                        match kept.result {
                            Ok(_) => {
                                lemma_fuel_for_ranged_iterations(
                                    repetition,
                                    contract,
                                    (index + 1) as usize,
                                    end,
                                    value,
                                    kept.frames,
                                    contracts,
                                    fuel,
                                    more,
                                );
                            },
                            Err(_) => {},
                        }
                    },
                    Err(_) => {},
                }
            },
            Err(_) => {},
        }
    }
}

/// What follows the bounds of a ranged loop, where it does not run out of
/// fuel, comes out the same with any larger amount of fuel.
pub proof fn lemma_fuel_for_range(
    repetition: RangedForLoop,
    start: Integer,
    end: Integer,
    snapshot: Option<Value>,
    frames: Frames,
    contracts: ContractMap,
    fuel: nat,
    more: nat,
)
    requires
        fuel <= more,
        sufficed(repetition.repeat(start, end, snapshot, frames, contracts, fuel).result),
    ensures
        repetition.repeat(start, end, snapshot, frames, contracts, more) == repetition.repeat(
            start,
            end,
            snapshot,
            frames,
            contracts,
            fuel,
        ),
    decreases 4 * fuel + 3, repetition, usize::MAX + 1,
{
    let contract = contract_for(contracts, repetition.tag);
    let tag = tag_text(repetition.tag);
    let entered = verdict(contract.pre_condition, tag, frames, contracts, fuel);
    lemma_fuel_for_verdict(contract.pre_condition, tag, frames, contracts, fuel, more);
    match entered.result {
        Ok(_) => {
            let body = repetition.iterate(
                contract,
                start.as_usize_spec(),
                end.as_usize_spec(),
                Value::Unit,
                entered.frames,
                contracts,
                fuel,
            );
            lemma_fuel_for_ranged_iterations(
                repetition,
                contract,
                start.as_usize_spec(),
                end.as_usize_spec(),
                Value::Unit,
                entered.frames,
                contracts,
                fuel,
                more,
            );
            match body.result {
                Ok(_) => {
                    let restored = match snapshot {
                        Some(previous) => bind(body.frames, repetition.variable@, previous),
                        None => Ok(body.frames),
                    };
                    match restored {
                        Ok(settled) => {
                            lemma_fuel_for_verdict(
                                contract.post_condition,
                                tag,
                                settled.drop_last(),
                                contracts,
                                fuel,
                                more,
                            );
                        },
                        Err(_) => {},
                    }
                },
                Err(_) => {},
            }
        },
        Err(_) => {},
    }
}

/// A ranged loop whose evaluation does not run out of fuel evaluates to the
/// same with any larger amount of fuel.
pub proof fn lemma_fuel_for_ranged(
    repetition: RangedForLoop,
    frames: Frames,
    contracts: ContractMap,
    fuel: nat,
    more: nat,
)
    requires
        fuel <= more,
        sufficed(repetition.evaluate(frames, contracts, fuel).result),
    ensures
        repetition.evaluate(frames, contracts, more) == repetition.evaluate(frames, contracts, fuel),
    decreases 4 * fuel + 3, repetition, usize::MAX + 2,
{
    let entered = frames.push(Map::empty());
    let snapshot = match resolve(entered, repetition.variable@) {
        Ok(previous) => Some(previous),
        Err(_) => None,
    };
    let start = repetition.start.evaluate(entered, contracts, fuel);
    lemma_fuel_for_expression(repetition.start, entered, contracts, fuel, more);
    match start.result {
        Ok(from) => {
            let end = repetition.end.evaluate(start.frames, contracts, fuel);
            lemma_fuel_for_expression(repetition.end, start.frames, contracts, fuel, more);
            match end.result {
                Ok(to) => {
                    match (from, to) {
                        (Value::Integer(a), Value::Integer(b)) => {
                            lemma_fuel_for_range(
                                repetition,
                                a,
                                b,
                                snapshot,
                                end.frames,
                                contracts,
                                fuel,
                                more,
                            );
                        },
                        _ => {},
                    }
                },
                Err(_) => {},
            }
        },
        Err(_) => {},
    }
}

} // verus!
