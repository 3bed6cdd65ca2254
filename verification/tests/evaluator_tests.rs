#![allow(dead_code)]

use algorithmify::expressions::block::Block;
use algorithmify::expressions::conditions::{Condition, If};
use algorithmify::expressions::loops::{Contract, Loop, RangedForLoop, WhileLoop};
use algorithmify::expressions::{
    Expression, FunctionBuilder, FunctionCall, IndexedAccessExpression, Integer, MethodCall,
    Operation, Reference, Statement,
};
use algorithmify::interpreter::context::{Context, ContractMap};
use algorithmify::interpreter::error::EvaluationError;
use algorithmify::interpreter::model::{MismatchContext, ValueKind};
use algorithmify::expressions::operation::OperationKind;
use algorithmify::{Function, Interpreter};

fn variable(name: &str) -> Expression {
    Expression::Reference(Reference::Variable(name.to_owned()))
}

fn number(value: i32) -> Expression {
    Expression::Integer(Integer::I32(value))
}

fn operation(operation: Operation) -> Expression {
    Expression::Operation(Box::new(operation))
}

fn assignment(name: &str, expression: Expression) -> Statement {
    Statement::Assignment(Reference::Variable(name.to_owned()), expression)
}

fn indexed(name: &str, index: Expression) -> IndexedAccessExpression {
    IndexedAccessExpression { variable: name.to_owned(), index: Box::new(index) }
}

fn element(name: &str, index: Expression) -> Expression {
    Expression::IndexedAccessExpression(indexed(name, index))
}

fn block(statements: Vec<Statement>) -> Expression {
    Expression::Block(Box::new(Block { statements }))
}

fn conditional(condition: Expression, statements: Vec<Statement>, else_clause: Option<Expression>) -> Expression {
    Expression::Condition(Box::new(Condition::If(If { statements, else_clause, condition })))
}

fn ranged_for(
    tag: Option<&str>,
    name: &str,
    start: Expression,
    end: Expression,
    statements: Vec<Statement>,
) -> Expression {
    Expression::Loop(Box::new(Loop::RangedFor(RangedForLoop {
        tag: tag.map(|tag| tag.to_owned()),
        statements,
        variable: Reference::Variable(name.to_owned()),
        start,
        end,
    })))
}

fn while_loop(tag: Option<&str>, condition: Expression, statements: Vec<Statement>) -> Expression {
    Expression::Loop(Box::new(Loop::While(WhileLoop {
        tag: tag.map(|tag| tag.to_owned()),
        statements,
        condition,
    })))
}

fn call(function: Function, params: Vec<Expression>) -> Expression {
    Expression::FunctionCall(FunctionCall { builder: FunctionBuilder::new(function), params })
}

fn length_of(name: &str) -> Expression {
    Expression::MethodCall(MethodCall {
        expression: Box::new(variable(name)),
        method: "len".to_owned(),
        args: vec![],
    })
}

fn function(args: &[&str], statements: Vec<Statement>) -> Function {
    Function::new(args.iter().map(|arg| (*arg).to_owned()).collect(), statements, ContractMap::new())
}

fn condition_named(name: &str, function: Function) -> Option<(String, FunctionBuilder)> {
    Some((name.to_owned(), FunctionBuilder::new(function)))
}

const FUEL: u64 = 1_000_000;

fn text(value: &str) -> Expression {
    Expression::String(value.to_owned())
}

fn evaluate(expression: Expression) -> Result<Expression, EvaluationError> {
    let contracts = ContractMap::new();
    let mut context = Context::new(&contracts);
    context.push_stack();
    let result = expression.execute(&mut context, FUEL);
    assert_eq!(context.depth(), 1);
    result
}

fn run(statements: Vec<Statement>) -> Result<Expression, EvaluationError> {
    Interpreter::execute_function(function(&[], statements))
}

fn counting(name: &str) -> Function {
    function(&[], vec![
        assignment(name, operation(Operation::Add(variable(name), number(1)))),
        Statement::Expression(Expression::Bool(true)),
    ])
}

fn counted(loop_expression: Expression) -> Function {
    let mut contracts = ContractMap::new();
    contracts.insert(
        "counted".to_owned(),
        Contract {
            pre_condition: condition_named("count_pre", counting("pre")),
            maintenance_condition: condition_named("count_rounds", counting("rounds")),
            post_condition: condition_named("count_post", counting("post")),
        },
    );
    Function::new(
        vec![],
        vec![
            assignment("pre", number(0)),
            assignment("rounds", number(0)),
            assignment("post", number(0)),
            Statement::Expression(loop_expression),
            Statement::Expression(Expression::Vector(vec![
                variable("pre"),
                variable("rounds"),
                variable("post"),
            ])),
        ],
        contracts,
    )
}

fn counts(pre: i32, rounds: i32, post: i32) -> Expression {
    Expression::Vector(vec![number(pre), number(rounds), number(post)])
}

#[test]
fn empty_statement_list_yields_unit() {
    assert_eq!(run(vec![]), Ok(Expression::Unit));
    assert_eq!(evaluate(block(vec![])), Ok(Expression::Unit));
    assert_eq!(evaluate(conditional(Expression::Bool(true), vec![], None)), Ok(Expression::Unit));
}

#[test]
fn literals_evaluate_to_themselves() {
    let literals = vec![
        Expression::Unit,
        Expression::Bool(true),
        Expression::Char('x'),
        text("abc"),
        Expression::Integer(Integer::U8(200)),
        Expression::Vector(vec![number(1), text("b"), Expression::Vector(vec![Expression::Unit])]),
    ];
    for literal in literals {
        assert_eq!(evaluate(literal.clone()), Ok(literal));
    }
}

#[test]
fn a_vector_evaluates_its_elements_in_order() {
    let result = run(vec![
        assignment("a", number(1)),
        Statement::Expression(Expression::Vector(vec![
            block(vec![
                assignment("a", operation(Operation::Add(variable("a"), number(1)))),
                Statement::Expression(variable("a")),
            ]),
            operation(Operation::Mul(variable("a"), number(10))),
        ])),
    ]);
    assert_eq!(result, Ok(Expression::Vector(vec![number(2), number(20)])));
}

#[test]
fn addition_keeps_the_width() {
    let cases = vec![
        (Integer::I8(100), Integer::I8(27), Integer::I8(127)),
        (Integer::I16(-3), Integer::I16(5), Integer::I16(2)),
        (Integer::I32(1), Integer::I32(2), Integer::I32(3)),
        (Integer::I64(1 << 40), Integer::I64(1), Integer::I64((1 << 40) + 1)),
        (Integer::Isize(-1), Integer::Isize(-1), Integer::Isize(-2)),
        (Integer::U8(200), Integer::U8(55), Integer::U8(255)),
        (Integer::U16(1), Integer::U16(2), Integer::U16(3)),
        (Integer::U32(7), Integer::U32(8), Integer::U32(15)),
        (Integer::U64(u64::MAX - 1), Integer::U64(1), Integer::U64(u64::MAX)),
        (Integer::Usize(3), Integer::Usize(4), Integer::Usize(7)),
    ];
    for (left, right, sum) in cases {
        let result = evaluate(operation(Operation::Add(
            Expression::Integer(left),
            Expression::Integer(right),
        )))
        .unwrap();
        match (&result, &sum) {
            (Expression::Integer(found), expected) => {
                assert_eq!(format!("{:?}", found), format!("{:?}", expected));
            }
            other => panic!("no integer: {:?}", other),
        }
    }
}

#[test]
fn mixed_widths_widen_to_signed_64_bit() {
    let result = evaluate(operation(Operation::Add(
        Expression::Integer(Integer::U8(200)),
        Expression::Integer(Integer::I32(100)),
    )))
    .unwrap();
    assert_eq!(format!("{:?}", result), "Integer(I64(300))");
    let result = evaluate(operation(Operation::Sub(
        Expression::Integer(Integer::Usize(1)),
        Expression::Integer(Integer::I8(2)),
    )))
    .unwrap();
    assert_eq!(format!("{:?}", result), "Integer(I64(-1))");
}

#[test]
fn overflow_is_reported_where_the_host_would_trap() {
    assert_eq!(
        evaluate(operation(Operation::Add(
            Expression::Integer(Integer::U8(200)),
            Expression::Integer(Integer::U8(56)),
        ))),
        Err(EvaluationError::ArithmeticOverflow(OperationKind::Add))
    );
    assert_eq!(
        evaluate(operation(Operation::Sub(
            Expression::Integer(Integer::Usize(1)),
            Expression::Integer(Integer::Usize(2)),
        ))),
        Err(EvaluationError::ArithmeticOverflow(OperationKind::Sub))
    );
    assert_eq!(
        evaluate(operation(Operation::Mul(number(i32::MAX), number(2)))),
        Err(EvaluationError::ArithmeticOverflow(OperationKind::Mul))
    );
    assert_eq!(
        evaluate(operation(Operation::Div(number(i32::MIN), number(-1)))),
        Err(EvaluationError::ArithmeticOverflow(OperationKind::Div))
    );
}

#[test]
fn division_by_zero_is_reported() {
    assert_eq!(
        evaluate(operation(Operation::Div(number(6), number(0)))),
        Err(EvaluationError::DivisionByZero)
    );
    assert_eq!(
        evaluate(operation(Operation::Div(
            Expression::Integer(Integer::U8(6)),
            Expression::Integer(Integer::I64(0)),
        ))),
        Err(EvaluationError::DivisionByZero)
    );
}

#[test]
fn division_rounds_toward_zero() {
    assert_eq!(evaluate(operation(Operation::Div(number(-7), number(2)))), Ok(number(-3)));
    assert_eq!(evaluate(operation(Operation::Div(number(7), number(-2)))), Ok(number(-3)));
    assert_eq!(evaluate(operation(Operation::Div(number(-7), number(-2)))), Ok(number(3)));
}

#[test]
fn bit_operations_work_on_integers() {
    assert_eq!(evaluate(operation(Operation::BitAnd(number(12), number(10)))), Ok(number(8)));
    assert_eq!(evaluate(operation(Operation::BitOr(number(12), number(10)))), Ok(number(14)));
    assert_eq!(
        evaluate(operation(Operation::BitAnd(Expression::Bool(true), number(10)))),
        Err(EvaluationError::UnsupportedOperation(
            OperationKind::BitAnd,
            ValueKind::Bool,
            ValueKind::Integer
        ))
    );
}

#[test]
fn strings_and_characters_concatenate() {
    assert_eq!(evaluate(operation(Operation::Add(text("ab"), text("cd")))), Ok(text("abcd")));
    assert_eq!(
        evaluate(operation(Operation::Add(text("ab"), Expression::Char('c')))),
        Ok(text("abc"))
    );
    assert_eq!(
        evaluate(operation(Operation::Add(Expression::Char('a'), text("bc")))),
        Ok(text("abc"))
    );
    assert_eq!(
        evaluate(operation(Operation::Add(Expression::Char('a'), Expression::Char('b')))),
        Err(EvaluationError::UnsupportedOperation(
            OperationKind::Add,
            ValueKind::Char,
            ValueKind::Char
        ))
    );
}

#[test]
fn comparisons_follow_the_table() {
    let pairs = vec![(1, 2, true, false), (2, 2, false, true), (3, 2, false, false)];
    for (left, right, less, equal) in pairs {
        let compare = |operation_of: fn(Expression, Expression) -> Operation| {
            evaluate(operation(operation_of(number(left), number(right)))).unwrap()
        };
        assert_eq!(compare(Operation::Lt), Expression::Bool(less));
        assert_eq!(compare(Operation::Eq), Expression::Bool(equal));
        assert_eq!(compare(Operation::Ne), Expression::Bool(!equal));
        assert_eq!(compare(Operation::Lte), Expression::Bool(less || equal));
        assert_eq!(compare(Operation::Gt), Expression::Bool(!less && !equal));
        assert_eq!(compare(Operation::Gte), Expression::Bool(!less));
    }
    assert_eq!(
        evaluate(operation(Operation::Lt(Expression::Bool(false), Expression::Bool(true)))),
        Ok(Expression::Bool(true))
    );
    assert_eq!(
        evaluate(operation(Operation::Gte(text("a"), text("b")))),
        Err(EvaluationError::UnsupportedOperation(
            OperationKind::Gte,
            ValueKind::String,
            ValueKind::String
        ))
    );
}

#[test]
fn comparisons_across_widths_go_through_signed_64_bit() {
    assert_eq!(
        evaluate(operation(Operation::Eq(
            Expression::Integer(Integer::U8(3)),
            Expression::Integer(Integer::I64(3)),
        ))),
        Ok(Expression::Bool(true))
    );
    assert_eq!(
        evaluate(operation(Operation::Lt(
            Expression::Integer(Integer::U64(u64::MAX)),
            Expression::Integer(Integer::U64(1)),
        ))),
        Ok(Expression::Bool(false))
    );
    assert_eq!(
        evaluate(operation(Operation::Lt(
            Expression::Integer(Integer::U64(u64::MAX)),
            Expression::Integer(Integer::I8(1)),
        ))),
        Ok(Expression::Bool(true))
    );
}

#[test]
fn logic_is_eager_in_both_operands() {
    assert_eq!(
        evaluate(operation(Operation::And(Expression::Bool(false), variable("missing")))),
        Err(EvaluationError::UnknownReference("missing".to_owned()))
    );
    assert_eq!(
        evaluate(operation(Operation::Or(Expression::Bool(true), number(1)))),
        Err(EvaluationError::UnsupportedOperation(
            OperationKind::Or,
            ValueKind::Bool,
            ValueKind::Integer
        ))
    );
}

#[test]
fn an_unbound_name_is_unknown() {
    assert_eq!(
        run(vec![Statement::Expression(variable("a"))]),
        Err(EvaluationError::UnknownReference("a".to_owned()))
    );
    assert_eq!(
        run(vec![Statement::Expression(element("v", number(0)))]),
        Err(EvaluationError::UnknownReference("v".to_owned()))
    );
    assert_eq!(
        run(vec![Statement::IndexedAssigment(indexed("v", number(0)), number(1))]),
        Err(EvaluationError::UnknownReference("v".to_owned()))
    );
}

#[test]
fn an_index_beyond_the_vector_is_out_of_range() {
    let vector = || assignment("v", Expression::Vector(vec![number(1), number(2)]));
    assert_eq!(
        run(vec![vector(), Statement::Expression(element("v", number(2)))]),
        Err(EvaluationError::IndexOutOfRange("v".to_owned(), 2))
    );
    assert_eq!(
        run(vec![vector(), Statement::IndexedAssigment(indexed("v", number(5)), number(1))]),
        Err(EvaluationError::IndexOutOfRange("v".to_owned(), 5))
    );
    assert_eq!(
        run(vec![vector(), Statement::Expression(element("v", number(-1)))]),
        Err(EvaluationError::IndexOutOfRange("v".to_owned(), usize::MAX))
    );
    assert_eq!(
        run(vec![vector(), Statement::Expression(element("v", number(1)))]),
        Ok(number(2))
    );
}

#[test]
fn an_index_must_be_an_integer() {
    let vector = || assignment("v", Expression::Vector(vec![number(1), number(2)]));
    assert_eq!(
        run(vec![vector(), Statement::Expression(element("v", Expression::Bool(true)))]),
        Err(EvaluationError::InvalidIndexExpression(Expression::Bool(true)))
    );
    assert_eq!(
        run(vec![vector(), Statement::IndexedAssigment(indexed("v", text("0")), number(1))]),
        Err(EvaluationError::InvalidIndexExpression(text("0")))
    );
}

#[test]
fn only_vectors_are_indexable() {
    assert_eq!(
        run(vec![assignment("v", number(1)), Statement::Expression(element("v", number(0)))]),
        Err(EvaluationError::NotIndexable("v".to_owned()))
    );
    assert_eq!(
        run(vec![
            assignment("v", number(1)),
            Statement::IndexedAssigment(indexed("v", number(0)), number(1)),
        ]),
        Err(EvaluationError::NotIndexable("v".to_owned()))
    );
}

#[test]
fn conditions_must_be_booleans() {
    assert_eq!(
        evaluate(conditional(number(1), vec![], None)),
        Err(EvaluationError::TypeMismatch(MismatchContext::IfCondition, number(1)))
    );
    assert_eq!(
        evaluate(while_loop(None, text("yes"), vec![])),
        Err(EvaluationError::TypeMismatch(MismatchContext::WhileCondition, text("yes")))
    );
}

#[test]
fn range_bounds_must_be_integers() {
    assert_eq!(
        evaluate(ranged_for(None, "i", Expression::Bool(true), number(3), vec![])),
        Err(EvaluationError::InvalidRange(Expression::Bool(true), number(3)))
    );
    assert_eq!(
        evaluate(ranged_for(None, "i", number(0), Expression::Unit, vec![])),
        Err(EvaluationError::InvalidRange(number(0), Expression::Unit))
    );
}

#[test]
fn the_number_of_arguments_must_be_that_of_the_parameters() {
    let sum = || {
        function(&["a", "b"], vec![Statement::Expression(operation(Operation::Add(
            variable("a"),
            variable("b"),
        )))])
    };
    assert_eq!(
        Interpreter::execute_function_with_args(sum(), vec![number(1)]),
        Err(EvaluationError::ArityMismatch(2, 1))
    );
    assert_eq!(
        Interpreter::execute_function_with_args(sum(), vec![number(1), number(2), number(3)]),
        Err(EvaluationError::ArityMismatch(2, 3))
    );
    assert_eq!(Interpreter::execute_function(sum()), Err(EvaluationError::ArityMismatch(2, 0)));
    assert_eq!(
        Interpreter::execute_function_with_args(sum(), vec![number(1), number(2)]),
        Ok(number(3))
    );
    assert_eq!(
        run(vec![Statement::Expression(call(sum(), vec![number(1)]))]),
        Err(EvaluationError::ArityMismatch(2, 1))
    );
}

#[test]
fn of_two_parameters_with_one_name_the_later_stays() {
    let last = function(&["a", "a"], vec![Statement::Expression(variable("a"))]);
    assert_eq!(
        Interpreter::execute_function_with_args(last, vec![number(1), number(2)]),
        Ok(number(2))
    );
}

#[test]
fn a_call_sees_nothing_of_the_caller() {
    let peek = function(&[], vec![Statement::Expression(variable("secret"))]);
    assert_eq!(
        run(vec![assignment("secret", number(1)), Statement::Expression(call(peek, vec![]))]),
        Err(EvaluationError::UnknownReference("secret".to_owned()))
    );
}

#[test]
fn a_call_uses_the_contracts_of_the_function_called() {
    let mut contracts = ContractMap::new();
    contracts.insert(
        "inner".to_owned(),
        Contract {
            pre_condition: condition_named(
                "never",
                function(&[], vec![Statement::Expression(Expression::Bool(false))]),
            ),
            maintenance_condition: None,
            post_condition: None,
        },
    );
    let tagged = || Statement::Expression(while_loop(Some("inner"), Expression::Bool(false), vec![]));
    let callee = Function::new(vec![], vec![tagged()], ContractMap::new());
    let caller = Function::new(
        vec![],
        vec![Statement::Expression(call(callee, vec![])), assignment("done", number(1)), tagged()],
        contracts,
    );
    assert_eq!(
        Interpreter::execute_function(caller),
        Err(EvaluationError::ContractFailed("inner".to_owned(), "never".to_owned()))
    );
}

#[test]
fn a_failed_condition_names_tag_and_condition() {
    let failing = |slot: usize| {
        let never = || {
            condition_named(
                "never",
                function(&[], vec![Statement::Expression(Expression::Bool(false))]),
            )
        };
        let mut contracts = ContractMap::new();
        contracts.insert(
            "tagged".to_owned(),
            Contract {
                pre_condition: if slot == 0 { never() } else { None },
                maintenance_condition: if slot == 1 { never() } else { None },
                post_condition: if slot == 2 { never() } else { None },
            },
        );
        Function::new(
            vec![],
            vec![
                assignment("rounds", number(0)),
                Statement::Expression(ranged_for(
                    Some("tagged"),
                    "i",
                    number(0),
                    number(2),
                    vec![assignment("rounds", operation(Operation::Add(variable("rounds"), number(1))))],
                )),
            ],
            contracts,
        )
    };
    for slot in 0..3 {
        assert_eq!(
            Interpreter::execute_function(failing(slot)),
            Err(EvaluationError::ContractFailed("tagged".to_owned(), "never".to_owned()))
        );
    }
}

#[test]
fn a_condition_must_return_a_boolean() {
    let mut contracts = ContractMap::new();
    contracts.insert(
        "tagged".to_owned(),
        Contract {
            pre_condition: condition_named(
                "number",
                function(&[], vec![Statement::Expression(number(1))]),
            ),
            maintenance_condition: None,
            post_condition: None,
        },
    );
    let function = Function::new(
        vec![],
        vec![Statement::Expression(while_loop(Some("tagged"), Expression::Bool(false), vec![]))],
        contracts,
    );
    assert_eq!(
        Interpreter::execute_function(function),
        Err(EvaluationError::ContractTypeError(
            "tagged".to_owned(),
            "number".to_owned(),
            number(1)
        ))
    );
}

#[test]
fn a_condition_with_parameters_cannot_be_called() {
    let mut contracts = ContractMap::new();
    contracts.insert(
        "tagged".to_owned(),
        Contract {
            pre_condition: condition_named(
                "needy",
                function(&["i"], vec![Statement::Expression(Expression::Bool(true))]),
            ),
            maintenance_condition: None,
            post_condition: None,
        },
    );
    let function = Function::new(
        vec![],
        vec![Statement::Expression(while_loop(Some("tagged"), Expression::Bool(false), vec![]))],
        contracts,
    );
    assert_eq!(Interpreter::execute_function(function), Err(EvaluationError::ArityMismatch(1, 0)));
}

#[test]
fn the_failure_of_a_condition_is_handed_on_unchanged() {
    let mut contracts = ContractMap::new();
    contracts.insert(
        "tagged".to_owned(),
        Contract {
            pre_condition: None,
            maintenance_condition: None,
            post_condition: condition_named(
                "lost",
                function(&[], vec![Statement::Expression(variable("nowhere"))]),
            ),
        },
    );
    let function = Function::new(
        vec![],
        vec![Statement::Expression(while_loop(Some("tagged"), Expression::Bool(false), vec![]))],
        contracts,
    );
    assert_eq!(
        Interpreter::execute_function(function),
        Err(EvaluationError::UnknownReference("nowhere".to_owned()))
    );
}

#[test]
fn an_unknown_tag_has_no_contract() {
    assert_eq!(
        run(vec![
            Statement::Expression(while_loop(Some("nobody"), Expression::Bool(false), vec![])),
            Statement::Expression(number(1)),
        ]),
        Ok(number(1))
    );
}

#[test]
fn of_two_contracts_with_one_tag_the_later_counts() {
    let holds = |verdict: bool| Contract {
        pre_condition: condition_named(
            "fixed",
            function(&[], vec![Statement::Expression(Expression::Bool(verdict))]),
        ),
        maintenance_condition: None,
        post_condition: None,
    };
    let contracts = ContractMap::from(vec![("t".to_owned(), holds(false)), ("t".to_owned(), holds(true))]);
    let function = Function::new(
        vec![],
        vec![Statement::Expression(while_loop(Some("t"), Expression::Bool(false), vec![]))],
        contracts,
    );
    assert_eq!(Interpreter::execute_function(function), Ok(Expression::Unit));
}

#[test]
fn a_ranged_loop_validates_its_contract_in_order() {
    let body = vec![Statement::Expression(number(7))];
    let result = Interpreter::execute_function(counted(ranged_for(
        Some("counted"),
        "i",
        number(2),
        number(7),
        body,
    )));
    assert_eq!(result, Ok(counts(1, 5, 1)));
}

#[test]
fn a_while_loop_validates_its_contract_in_order() {
    let result = Interpreter::execute_function(counted(while_loop(
        Some("counted"),
        operation(Operation::Lt(variable("rounds"), number(3))),
        vec![],
    )));
    assert_eq!(result, Ok(counts(1, 3, 1)));
}

#[test]
fn a_loop_over_an_empty_range_still_validates_pre_and_post_conditions() {
    for (start, end) in [(3, 3), (5, 2)] {
        let result = Interpreter::execute_function(counted(ranged_for(
            Some("counted"),
            "i",
            number(start),
            number(end),
            vec![assignment("rounds", number(100))],
        )));
        assert_eq!(result, Ok(counts(1, 0, 1)));
    }
}

#[test]
fn the_pre_condition_comes_before_any_iteration() {
    let mut contracts = ContractMap::new();
    contracts.insert(
        "tagged".to_owned(),
        Contract {
            pre_condition: condition_named(
                "untouched",
                function(&[], vec![Statement::Expression(operation(Operation::Eq(
                    variable("touched"),
                    number(0),
                )))]),
            ),
            maintenance_condition: condition_named(
                "touched_once_more",
                function(&[], vec![Statement::Expression(operation(Operation::Gt(
                    variable("touched"),
                    number(0),
                )))]),
            ),
            post_condition: condition_named(
                "all_touched",
                function(&[], vec![Statement::Expression(operation(Operation::Eq(
                    variable("touched"),
                    number(4),
                )))]),
            ),
        },
    );
    let function = Function::new(
        vec![],
        vec![
            assignment("touched", number(0)),
            Statement::Expression(ranged_for(
                Some("tagged"),
                "i",
                number(0),
                number(4),
                vec![assignment("touched", operation(Operation::Add(variable("touched"), number(1))))],
            )),
            Statement::Expression(variable("touched")),
        ],
        contracts,
    );
    assert_eq!(Interpreter::execute_function(function), Ok(number(4)));
}

#[test]
fn the_value_of_a_loop_is_that_of_its_last_statement() {
    assert_eq!(
        evaluate(ranged_for(None, "i", number(0), number(3), vec![Statement::Expression(
            operation(Operation::Mul(variable("i"), number(2)))
        )])),
        Ok(Expression::Integer(Integer::I64(4)))
    );
    assert_eq!(evaluate(ranged_for(None, "i", number(0), number(0), vec![])), Ok(Expression::Unit));
    assert_eq!(evaluate(while_loop(None, Expression::Bool(false), vec![])), Ok(Expression::Unit));
}

#[test]
fn the_iterator_variable_is_an_unsigned_machine_word() {
    let result = evaluate(ranged_for(None, "i", number(4), number(5), vec![Statement::Expression(
        variable("i"),
    )]))
    .unwrap();
    assert_eq!(format!("{:?}", result), "Integer(Usize(4))");
}

#[test]
fn a_prior_binding_of_the_iterator_variable_is_restored() {
    let result = run(vec![
        assignment("i", text("before")),
        Statement::Expression(ranged_for(
            None,
            "i",
            number(0),
            number(3),
            vec![assignment("i", operation(Operation::Add(variable("i"), number(10))))],
        )),
        Statement::Expression(variable("i")),
    ]);
    assert_eq!(result, Ok(text("before")));
}

#[test]
fn the_iterator_variable_is_unbound_after_the_loop() {
    let result = run(vec![
        Statement::Expression(ranged_for(None, "i", number(0), number(3), vec![])),
        Statement::Expression(variable("i")),
    ]);
    assert_eq!(result, Err(EvaluationError::UnknownReference("i".to_owned())));
}

#[test]
fn a_slot_cannot_be_an_iterator_variable() {
    let looping = Expression::Loop(Box::new(Loop::RangedFor(RangedForLoop {
        tag: None,
        statements: vec![],
        variable: Reference::IndexedAccess("v".to_owned(), 0),
        start: number(0),
        end: number(1),
    })));
    assert_eq!(
        run(vec![
            assignment("v", Expression::Vector(vec![number(1)])),
            Statement::Expression(looping),
        ]),
        Err(EvaluationError::InvalidBinding("v".to_owned(), 0))
    );
}

#[test]
fn the_bindings_of_a_block_do_not_leak() {
    let result = run(vec![
        assignment("r", block(vec![
            assignment("a", number(1)),
            Statement::Expression(operation(Operation::Add(variable("a"), number(2)))),
        ])),
        Statement::Expression(variable("a")),
    ]);
    assert_eq!(result, Err(EvaluationError::UnknownReference("a".to_owned())));
}

#[test]
fn the_bindings_of_a_block_in_an_if_branch_do_not_leak() {
    let program = |probe: &str| {
        run(vec![
            assignment("outer", number(1)),
            Statement::Expression(conditional(
                Expression::Bool(true),
                vec![Statement::Expression(block(vec![
                    assignment("inner", number(2)),
                    assignment("outer", number(3)),
                ]))],
                None,
            )),
            Statement::Expression(variable(probe)),
        ])
    };
    assert_eq!(program("inner"), Err(EvaluationError::UnknownReference("inner".to_owned())));
    assert_eq!(program("outer"), Ok(number(3)));
}

#[test]
fn an_if_branch_has_no_frame_of_its_own() {
    let result = run(vec![
        Statement::Expression(conditional(
            Expression::Bool(true),
            vec![assignment("fresh", number(1))],
            None,
        )),
        Statement::Expression(variable("fresh")),
    ]);
    assert_eq!(result, Ok(number(1)));
}

#[test]
fn an_assignment_updates_the_frame_that_owns_the_name() {
    let result = run(vec![
        assignment("a", number(1)),
        Statement::Expression(block(vec![
            Statement::Expression(block(vec![assignment("a", number(2))])),
            assignment("b", variable("a")),
        ])),
        Statement::Expression(variable("a")),
    ]);
    assert_eq!(result, Ok(number(2)));
}

#[test]
fn an_assignment_yields_unit() {
    assert_eq!(run(vec![assignment("a", number(1))]), Ok(Expression::Unit));
    assert_eq!(
        run(vec![
            assignment("v", Expression::Vector(vec![number(1)])),
            Statement::IndexedAssigment(indexed("v", number(0)), number(5)),
        ]),
        Ok(Expression::Unit)
    );
}

#[test]
fn an_indexed_assignment_evaluates_the_index_first() {
    let result = run(vec![
        assignment("v", Expression::Vector(vec![number(1)])),
        Statement::IndexedAssigment(indexed("v", text("bad")), variable("missing")),
    ]);
    assert_eq!(result, Err(EvaluationError::InvalidIndexExpression(text("bad"))));
}

#[test]
fn frames_are_balanced_after_a_failure() {
    let contracts = ContractMap::new();
    let mut context = Context::new(&contracts);
    context.push_stack();
    context.push_stack();
    let failing = vec![
        block(vec![Statement::Expression(block(vec![Statement::Expression(variable("x"))]))]),
        ranged_for(None, "i", number(0), number(3), vec![Statement::Expression(block(vec![
            Statement::Expression(operation(Operation::Div(number(1), number(0)))),
        ]))]),
        ranged_for(None, "i", variable("x"), number(3), vec![]),
        ranged_for(None, "i", number(0), variable("x"), vec![]),
        ranged_for(None, "i", number(0), Expression::Unit, vec![]),
        while_loop(None, Expression::Bool(true), vec![Statement::Expression(variable("x"))]),
        while_loop(None, Expression::Bool(true), vec![]),
        call(function(&[], vec![Statement::Expression(variable("x"))]), vec![]),
        call(function(&["a"], vec![]), vec![]),
    ];
    for expression in failing {
        assert!(expression.execute(&mut context, 50).is_err());
        assert_eq!(context.depth(), 2);
    }
    let function = function(&[], vec![Statement::Expression(variable("x"))]);
    assert!(function.execute(&mut context, vec![], 50).is_err());
    assert_eq!(context.depth(), 2);
}

#[test]
fn a_loop_that_runs_beyond_the_fuel_is_stopped() {
    let contracts = ContractMap::new();
    let mut context = Context::new(&contracts);
    context.push_stack();
    let forever = while_loop(None, Expression::Bool(true), vec![]);
    assert_eq!(forever.execute(&mut context, 1000), Err(EvaluationError::FuelExhausted));
    assert_eq!(context.depth(), 1);
    let bounded = Function::new(
        vec![],
        vec![
            assignment("n", number(0)),
            Statement::Expression(while_loop(
                None,
                operation(Operation::Lt(variable("n"), number(5))),
                vec![assignment("n", operation(Operation::Add(variable("n"), number(1))))],
            )),
            Statement::Expression(variable("n")),
        ],
        ContractMap::new(),
    );
    assert_eq!(bounded.execute(&mut context, vec![], 5), Ok(number(5)));
    assert_eq!(bounded.execute(&mut context, vec![], 4), Err(EvaluationError::FuelExhausted));
}

#[test]
fn the_length_of_a_vector_is_its_only_method() {
    assert_eq!(
        run(vec![
            assignment("v", Expression::Vector(vec![number(1), number(2), number(3)])),
            Statement::Expression(length_of("v")),
        ]),
        Ok(Expression::Integer(Integer::Usize(3)))
    );
    assert_eq!(
        run(vec![assignment("v", number(1)), Statement::Expression(length_of("v"))]),
        Err(EvaluationError::InvalidMethod("len".to_owned(), number(1)))
    );
    let push = Expression::MethodCall(MethodCall {
        expression: Box::new(Expression::Vector(vec![])),
        method: "push".to_owned(),
        args: vec![number(1)],
    });
    assert_eq!(
        evaluate(push),
        Err(EvaluationError::InvalidMethod("push".to_owned(), Expression::Vector(vec![])))
    );
}

#[test]
fn arguments_come_from_the_live_bindings() {
    let contracts = ContractMap::new();
    let mut context = Context::new(&contracts);
    context.push_stack();
    context.insert_into_heap(&Reference::Variable("a".to_owned()), number(1)).unwrap();
    context.push_stack();
    context.insert_into_heap(&Reference::Variable("b".to_owned()), number(2)).unwrap();
    let both = function(&["b", "a"], vec![]);
    assert_eq!(both.extract_args_from_context(&context), Ok(vec![number(2), number(1)]));
    let third = function(&["a", "c", "d"], vec![]);
    assert_eq!(
        third.extract_args_from_context(&context),
        Err(EvaluationError::UnknownReference("c".to_owned()))
    );
}

#[test]
fn the_context_writes_where_the_name_lives() {
    let contracts = ContractMap::new();
    let mut context = Context::new(&contracts);
    let a = Reference::Variable("a".to_owned());
    context.push_stack();
    context.insert_or_update_in_heap(&a, number(1)).unwrap();
    context.push_stack();
    context.insert_or_update_in_heap(&a, number(2)).unwrap();
    context.pop_stack();
    assert_eq!(context.search_reference(&a), Ok(&number(2)));
    context.push_stack();
    context.insert_into_heap(&a, number(3)).unwrap();
    assert_eq!(context.search_reference(&a), Ok(&number(3)));
    context.pop_stack();
    assert_eq!(context.search_reference(&a), Ok(&number(2)));
    assert_eq!(
        context.insert_into_heap(&Reference::IndexedAccess("a".to_owned(), 1), number(3)),
        Err(EvaluationError::InvalidBinding("a".to_owned(), 1))
    );
    context.pop_stack();
    context.pop_stack();
    assert_eq!(context.depth(), 0);
}

#[test]
fn conversions_make_integers_and_vectors() {
    assert_eq!(format!("{:?}", Expression::from(3i32)), "Integer(I32(3))");
    assert_eq!(format!("{:?}", Expression::from(3i64)), "Integer(I64(3))");
    assert_eq!(format!("{:?}", Expression::from(3usize)), "Integer(Usize(3))");
    assert_eq!(
        format!("{:?}", Expression::from(vec![vec![1i32], vec![]])),
        "Vector([Vector([Integer(I32(1))]), Vector([])])"
    );
    assert_eq!(
        format!("{:?}", Expression::from(vec![1usize, 2, 3])),
        "Vector([Integer(Usize(1)), Integer(Usize(2)), Integer(Usize(3))])"
    );
}

#[test]
fn a_condition_can_write_where_nothing_shadows() {
    let mut contracts = ContractMap::new();
    contracts.insert(
        "writing".to_owned(),
        Contract {
            pre_condition: None,
            maintenance_condition: condition_named(
                "overwrite",
                function(&[], vec![
                    assignment("i", number(5)),
                    Statement::Expression(Expression::Bool(true)),
                ]),
            ),
            post_condition: None,
        },
    );
    let function = Function::new(
        vec![],
        vec![
            assignment("i", number(1)),
            Statement::Expression(ranged_for(Some("writing"), "i", number(0), number(1), vec![])),
            Statement::Expression(variable("i")),
        ],
        contracts,
    );
    assert_eq!(Interpreter::execute_function(function), Ok(number(5)));
}

#[test]
fn the_bounds_of_a_range_are_evaluated_around_the_iteration() {
    let result = run(vec![
        assignment("i", number(1)),
        Statement::Expression(ranged_for(
            None,
            "i",
            conditional(
                Expression::Bool(true),
                vec![assignment("i", number(7)), Statement::Expression(number(0))],
                None,
            ),
            number(2),
            vec![assignment("i", number(100))],
        )),
        Statement::Expression(variable("i")),
    ]);
    assert_eq!(result, Ok(number(7)));
}

#[test]
fn more_fuel_changes_nothing_where_less_suffices() {
    let contracts = ContractMap::new();
    let program = Function::new(
        vec![],
        vec![
            assignment("n", number(0)),
            Statement::Expression(while_loop(
                None,
                operation(Operation::Lt(variable("n"), number(9))),
                vec![assignment("n", operation(Operation::Add(variable("n"), number(1))))],
            )),
            Statement::Expression(variable("n")),
        ],
        ContractMap::new(),
    );
    for fuel in [9, 10, 1000, u64::MAX] {
        let mut context = Context::new(&contracts);
        assert_eq!(program.execute(&mut context, vec![], fuel), Ok(number(9)));
        assert_eq!(context.depth(), 0);
    }
}

#[test]
fn a_copy_is_equal_to_what_it_copies() {
    let mut contracts = ContractMap::new();
    contracts.insert(
        "tagged".to_owned(),
        Contract {
            pre_condition: condition_named("first", counting("pre")),
            maintenance_condition: None,
            post_condition: condition_named("last", counting("post")),
        },
    );
    let function = Function::new(
        vec!["a".to_owned(), "b".to_owned()],
        vec![
            assignment("v", Expression::Vector(vec![number(1), text("two"), Expression::Char('3')])),
            Statement::IndexedAssigment(indexed("v", number(0)), Expression::Unit),
            Statement::Expression(ranged_for(Some("tagged"), "i", number(0), length_of("v"), vec![
                Statement::Expression(while_loop(None, Expression::Bool(false), vec![])),
            ])),
            Statement::Expression(conditional(
                operation(Operation::Gte(variable("a"), variable("b"))),
                vec![Statement::Expression(block(vec![]))],
                Some(call(counting("n"), vec![element("v", number(1))])),
            )),
        ],
        contracts,
    );
    let copy = function.clone();
    assert_eq!(copy, function);
    assert_eq!(Contract::default(), Contract {
        pre_condition: None,
        maintenance_condition: None,
        post_condition: None,
    });
    assert_eq!(ContractMap::default(), ContractMap::new());
}
