#![allow(dead_code)]

use algorithmify::lowering::error::LoweringError;
use algorithmify::lowering::expression_mapper::{
    map_addition, map_bitwise_and, map_bitwise_or, map_block, map_division, map_eq, map_expression,
    map_function_call, map_gt, map_gte, map_indexed_reference, map_indexed_reference_expression,
    map_integer, map_logical_and, map_logical_or, map_lt, map_lte, map_multiplication, map_ne,
    map_reference, map_reference_expression, map_statements, map_substraction, map_value,
    map_vec_sequence, map_vec_shorthand, try_get_identifier, try_get_indexed_access,
    try_get_usize, alt,
};
use algorithmify::lowering::condition_mapper::map_if_condition;
use algorithmify::lowering::function_mapper::{
    build_contract, build_contracts, define_function_builder, map_args,
};
use algorithmify::lowering::grammar::Alternative;
use algorithmify::lowering::loop_mapper::{map_for_loop, map_while_loop, try_get_tag};
use algorithmify::lowering::numbers::{i32_of, text_of_i32, text_of_usize, usize_of};
use algorithmify::lowering::statement_mapper::{
    map_statement, try_map_assignment, try_map_expression, try_map_indexed_assignment,
};
use algorithmify::lowering::token_container::{Delimiter, Group, TokenContainer, TokenTree};
use algorithmify::lowering::token_iterator::TokenIterator;

/// Splits host source into tokens the way the compiler hands them to an
/// attribute: identifiers, literals, single punctuation characters and
/// delimited groups.
fn tokens(source: &str) -> Vec<TokenTree> {
    let characters: Vec<char> = source.chars().collect();
    let mut position = 0;
    let found = read(&characters, &mut position, None);
    assert_eq!(position, characters.len());
    found
}

fn read(characters: &[char], position: &mut usize, closing: Option<char>) -> Vec<TokenTree> {
    let mut found = Vec::new();
    while *position < characters.len() {
        let c = characters[*position];
        if c.is_whitespace() {
            *position += 1;
        } else if Some(c) == closing {
            return found;
        } else if c == '(' || c == '[' || c == '{' {
            let (delimiter, close) = match c {
                '(' => (Delimiter::Parenthesis, ')'),
                '[' => (Delimiter::Bracket, ']'),
                _ => (Delimiter::Brace, '}'),
            };
            let start = *position;
            *position += 1;
            let stream = read(characters, position, Some(close));
            assert_eq!(characters[*position], close);
            *position += 1;
            let text: String = characters[start..*position].iter().collect();
            found.push(TokenTree::Group(Group { delimiter, stream, text }));
        } else if c.is_alphabetic() || c == '_' {
            let start = *position;
            while *position < characters.len()
                && (characters[*position].is_alphanumeric() || characters[*position] == '_')
            {
                *position += 1;
            }
            found.push(TokenTree::Ident(characters[start..*position].iter().collect()));
        } else if c.is_ascii_digit() {
            let start = *position;
            while *position < characters.len() && characters[*position].is_alphanumeric() {
                *position += 1;
            }
            found.push(TokenTree::Literal(characters[start..*position].iter().collect()));
        } else {
            found.push(TokenTree::Punct(c));
            *position += 1;
        }
    }
    found
}

fn group(source: &str) -> Group {
    match tokens(source).remove(0) {
        TokenTree::Group(group) => group,
        other => panic!("no group: {:?}", other),
    }
}

fn operation(name: &str, lhs: &str, rhs: &str) -> String {
    format!("algorithmify::expressions::Expression::Operation(Box::new(algorithmify::expressions::Operation::{}({}, {})))", name, lhs, rhs)
}

fn integer(number: i32) -> String {
    format!(
        "algorithmify::expressions::Expression::Integer(algorithmify::expressions::Integer::I32({}))",
        number,
    )
}

fn reference(name: &str) -> String {
    format!(
        "algorithmify::expressions::Reference::Variable(\"{}\".to_owned())",
        name,
    )
}

fn variable(name: &str) -> String {
    format!(
        "algorithmify::expressions::Expression::Reference({})",
        reference(name),
    )
}

fn indexed_reference(name: &str, index: &str) -> String {
    format!(
        "algorithmify::expressions::IndexedAccessExpression{{
            variable: \"{}\".to_owned(), 
            index: Box::new({})
        }}",
        name, index
    )
}

fn indexed_expression(name: &str, index: &str) -> String {
    format!(
        "algorithmify::expressions::Expression::IndexedAccessExpression({})",
        indexed_reference(name, index),
    )
}

fn block(statements: &str) -> String {
    let block = format!(
        "algorithmify::expressions::block::Block {{
                    statements: vec![{}],
                }}",
        statements
    );
    format!(
        "algorithmify::expressions::Expression::Block(Box::new({})),",
        block
    )
}

fn conditional(statements: &str, condition: &str, else_clause: &str) -> String {
    let if_condition = format!(
        "algorithmify::expressions::conditions::If {{
            statements: vec![{}],
            condition: {},
            else_clause: {}
        }}",
        statements, condition, else_clause
    );
    format!(
        "algorithmify::expressions::Expression::Condition(Box::new(algorithmify::expressions::conditions::Condition::If({}))),",
        if_condition
    )
}

fn for_loop(tag: &str, statements: &str, variable: &str, start: &str, end: &str) -> String {
    let for_loop = format!(
        "algorithmify::expressions::loops::RangedForLoop {{
            tag: {},
            statements: vec![{}],
            variable: {},
            start: {},
            end: {}
        }}",
        tag, statements, variable, start, end
    );
    format!(
        "algorithmify::expressions::Expression::Loop(Box::new(algorithmify::expressions::loops::Loop::RangedFor({}))),",
        for_loop
    )
}

fn while_loop(tag: &str, statements: &str, condition: &str) -> String {
    let while_loop = format!(
        "algorithmify::expressions::loops::WhileLoop {{
            tag: {},
            statements: vec![{}],
            condition: {},
        }}",
        tag, statements, condition
    );
    format!(
        "algorithmify::expressions::Expression::Loop(Box::new(algorithmify::expressions::loops::Loop::While({}))),",
        while_loop
    )
}

fn function_call(name: &str, params: &str) -> String {
    format!(
        "algorithmify::expressions::Expression::FunctionCall(algorithmify::expressions::FunctionCall{{
                    builder: algorithmify::expressions::FunctionBuilder::new({}__function_builder()), 
                    params: vec![{}]
                }})",
        name, params
    )
}

fn assignment(identifier: &str, expression: &str) -> String {
    format!(
        "algorithmify::expressions::Statement::Assignment({}, {})",
        identifier, expression
    )
}

fn indexed_assignment(identifier: &str, expression: &str) -> String {
    format!(
        "algorithmify::expressions::Statement::IndexedAssigment({}, {})",
        identifier, expression
    )
}

fn expression_statement(expression: &str) -> String {
    format!(
        "algorithmify::expressions::Statement::Expression({})",
        expression
    )
}

fn builder(name: &str, args: &str, statements: &str, contracts: &str) -> String {
    format!(
        r###"
        fn {}__function_builder() -> algorithmify::Function {{
            algorithmify::Function::new(
                vec![
                    {}
                ],
                vec![
                    {}
                ],
                algorithmify::interpreter::context::ContractMap::from(vec![{}])
            )
        }}

        #[allow(unused_labels)]
        #[allow(dead_code)]
    "###,
        name, args, statements, contracts
    )
}

fn expression_of(source: &str) -> (Option<(String, bool)>, usize) {
    let tokens = tokens(source);
    let mut iterator = TokenIterator::from(&tokens);
    let mapped = map_expression(&mut iterator).unwrap();
    (mapped.map(|found| (found.mapping, found.needs_semicolon_unless_final)), iterator.index)
}

fn statements_of(source: &str) -> Result<String, LoweringError> {
    map_statements(&group(&format!("{{ {} }}", source)))
}

fn not_recognized(texts: &[&str]) -> LoweringError {
    LoweringError::StatementNotRecognized(texts.iter().map(|text| (*text).to_owned()).collect())
}

#[test]
fn operations_map_to_their_constructors() {
    let l = || "L".to_owned();
    let r = || "R".to_owned();
    assert_eq!(map_addition(l(), r()), operation("Add", "L", "R"));
    assert_eq!(map_substraction(l(), r()), operation("Sub", "L", "R"));
    assert_eq!(map_multiplication(l(), r()), operation("Mul", "L", "R"));
    assert_eq!(map_division(l(), r()), operation("Div", "L", "R"));
    assert_eq!(map_bitwise_and(l(), r()), operation("BitAnd", "L", "R"));
    assert_eq!(map_bitwise_or(l(), r()), operation("BitOr", "L", "R"));
    assert_eq!(map_logical_and(l(), r()), operation("And", "L", "R"));
    assert_eq!(map_logical_or(l(), r()), operation("Or", "L", "R"));
    assert_eq!(map_eq(l(), r()), operation("Eq", "L", "R"));
    assert_eq!(map_ne(l(), r()), operation("Ne", "L", "R"));
    assert_eq!(map_lt(l(), r()), operation("Lt", "L", "R"));
    assert_eq!(map_lte(l(), r()), operation("Lte", "L", "R"));
    assert_eq!(map_gt(l(), r()), operation("Gt", "L", "R"));
    assert_eq!(map_gte(l(), r()), operation("Gte", "L", "R"));
    assert_eq!(
        map_addition("1".to_owned(), "2".to_owned()),
        "algorithmify::expressions::Expression::Operation(Box::new(algorithmify::expressions::Operation::Add(1, 2)))"
    );
}

#[test]
fn leaves_map_to_their_constructors() {
    assert_eq!(map_integer(&"42".to_owned()), integer(42));
    assert_eq!(map_integer(&"007".to_owned()), integer(7));
    assert_eq!(map_integer(&"-5".to_owned()), integer(-5));
    assert_eq!(
        map_integer(&"2147483647".to_owned()),
        "algorithmify::expressions::Expression::Integer(algorithmify::expressions::Integer::I32(2147483647))"
    );
    assert_eq!(map_reference(&"a".to_owned()), reference("a"));
    assert_eq!(map_reference_expression(&"a".to_owned()), variable("a"));
    assert_eq!(
        map_reference_expression(&"true".to_owned()),
        "algorithmify::expressions::Expression::Bool(true)"
    );
    assert_eq!(
        map_reference_expression(&"false".to_owned()),
        "algorithmify::expressions::Expression::Bool(false)"
    );
    assert_eq!(map_indexed_reference(&"v".to_owned(), "I".to_owned()), indexed_reference("v", "I"));
    assert_eq!(
        map_indexed_reference_expression(&"v".to_owned(), "I".to_owned()),
        indexed_expression("v", "I")
    );
}

#[test]
fn decimal_numbers_are_read_and_written() {
    assert_eq!(i32_of("0"), Some(0));
    assert_eq!(i32_of("+12"), Some(12));
    assert_eq!(i32_of("-12"), Some(-12));
    assert_eq!(i32_of("0012"), Some(12));
    assert_eq!(i32_of("2147483647"), Some(i32::MAX));
    assert_eq!(i32_of("2147483648"), None);
    assert_eq!(i32_of("-2147483648"), Some(i32::MIN));
    assert_eq!(i32_of("-2147483649"), None);
    assert_eq!(i32_of("99999999999999999999999"), None);
    for bad in ["", "+", "-", "1_000", "12a", " 1", "1 ", "1i32", "0x10", "--1", "1.5"] {
        assert_eq!(i32_of(bad), None, "{:?}", bad);
    }
    assert_eq!(usize_of("3"), Some(3));
    assert_eq!(usize_of("+3"), Some(3));
    assert_eq!(usize_of("-3"), None);
    assert_eq!(usize_of("18446744073709551615"), "18446744073709551615".parse::<usize>().ok());
    assert_eq!(usize_of("18446744073709551616"), None);
    assert_eq!(usize_of("3usize"), None);
    for number in [0, 1, 9, 10, 11, 99, 100, 12345, i32::MAX, -1, -10, i32::MIN] {
        assert_eq!(text_of_i32(number), number.to_string());
        assert_eq!(i32_of(&number.to_string()), Some(number));
    }
    for number in [0usize, 7, 10, 1000, usize::MAX] {
        assert_eq!(text_of_usize(number), number.to_string());
    }
}

#[test]
fn the_cursor_walks_and_rewinds() {
    let tokens = tokens("a == b ; c");
    let mut iterator = TokenIterator::from(&tokens);
    assert_eq!(iterator.peek(), Some(&TokenTree::Ident("a".to_owned())));
    assert_eq!(iterator.next(), Some(&TokenTree::Ident("a".to_owned())));
    assert_eq!(iterator.try_get_next_token("!"), None);
    assert_eq!(iterator.index, 1);
    assert_eq!(iterator.next_nth_string(2), Some("==".to_owned()));
    assert_eq!(iterator.index, 3);
    assert_eq!(iterator.try_get_next_token("b"), Some(()));
    assert_eq!(iterator.next_nth_string(2), None);
    assert_eq!(iterator.index, 4);
    assert_eq!(iterator.next_nth(5).map(|found| found.len()), Some(2));
    assert_eq!(iterator.index, 6);
    assert_eq!(iterator.peek(), None);
    assert_eq!(iterator.next(), None);
    assert_eq!(iterator.next_nth(1), None);
    iterator.rewind_to(1);
    assert_eq!(iterator.get_until_delimiter(";").map(|found| found.len()), Some(3));
    assert_eq!(iterator.index, 5);
    assert_eq!(iterator.get_until_delimiter(";"), None);
    assert_eq!(iterator.index, 5);
    iterator.rewind_to(0);
    assert_eq!(iterator.next_nth(2).map(|found| found.len()), Some(2));
    assert_eq!(iterator.index, 2);
    let over_slice = TokenIterator::from(&tokens[1..3]);
    assert_eq!(over_slice.tokens.len(), 2);
    assert_eq!(over_slice.tokens.index(0), &TokenTree::Punct('='));
    assert_eq!(TokenContainer::Vec(&tokens).range(4, 6).len(), 2);
}

#[test]
fn tokens_print_as_their_text() {
    let found: Vec<String> = tokens("ab 12 + (x y)").iter().map(|token| token.to_text()).collect();
    assert_eq!(found, vec!["ab", "12", "+", "(x y)"]);
}

#[test]
fn values_are_references_literals_and_parenthesised_expressions() {
    let value_of = |source: &str| {
        let tokens = tokens(source);
        let mut iterator = TokenIterator::from(&tokens);
        let mapped = map_value(&mut iterator).unwrap();
        (mapped, iterator.index)
    };
    assert_eq!(value_of("a + 1"), (Some(variable("a")), 1));
    assert_eq!(value_of("15"), (Some(integer(15)), 1));
    assert_eq!(value_of("1usize"), (None, 0));
    assert_eq!(value_of("4294967296"), (None, 0));
    assert_eq!(value_of("(a)"), (Some(variable("a")), 1));
    assert_eq!(value_of("(a b)"), (None, 0));
    assert_eq!(value_of("()"), (None, 0));
    assert_eq!(value_of("[a]"), (None, 0));
    assert_eq!(value_of("+ a"), (None, 0));
    assert_eq!(value_of(""), (None, 0));
    assert_eq!(value_of("v[i] + 1"), (Some(indexed_expression("v", &variable("i"))), 2));
    assert_eq!(value_of("v[]"), (Some(variable("v")), 1));
    assert_eq!(value_of("v[i j]"), (Some(variable("v")), 1));
    assert_eq!(value_of("v(i)"), (Some(variable("v")), 1));
}

#[test]
fn operators_bind_by_their_tier() {
    let a = variable("a");
    let product = operation("Mul", &operation("Div", &a, &integer(2)), &integer(2));
    assert_eq!(
        expression_of("3 + a / 2 * 2 + 3"),
        (Some((operation("Add", &operation("Add", &integer(3), &product), &integer(3)), true)), 9)
    );
    assert_eq!(
        expression_of("3 + ((a / 2) * 2) + 3"),
        (Some((operation("Add", &operation("Add", &integer(3), &product), &integer(3)), true)), 5)
    );
    assert_eq!(
        expression_of("a - 1 - 2"),
        (Some((operation("Sub", &operation("Sub", &a, &integer(1)), &integer(2)), true)), 5)
    );
    assert_eq!(
        expression_of("a & 1 | 2"),
        (Some((operation("BitOr", &operation("BitAnd", &a, &integer(1)), &integer(2)), true)), 5)
    );
}

#[test]
fn comparisons_and_logic_are_read_from_single_characters() {
    let a = variable("a");
    assert_eq!(expression_of("a == 6;"), (Some((operation("Eq", &a, &integer(6)), true)), 4));
    assert_eq!(expression_of("a != 5;"), (Some((operation("Ne", &a, &integer(5)), true)), 4));
    assert_eq!(expression_of("a <= 5;"), (Some((operation("Lte", &a, &integer(5)), true)), 4));
    assert_eq!(expression_of("a >= 5;"), (Some((operation("Gte", &a, &integer(5)), true)), 4));
    assert_eq!(expression_of("a < 5"), (Some((operation("Lt", &a, &integer(5)), true)), 3));
    assert_eq!(expression_of("a > 5"), (Some((operation("Gt", &a, &integer(5)), true)), 3));
    assert_eq!(expression_of("a == 6"), (Some((operation("Eq", &a, &integer(6)), true)), 4));
    assert_eq!(expression_of("a =="), (Some((a.clone(), true)), 1));
    assert_eq!(expression_of("a == +"), (Some((a.clone(), true)), 1));
    assert_eq!(expression_of("a && b"), (Some((operation("And", &a, &variable("b")), true)), 4));
    assert_eq!(expression_of("a || b"), (Some((operation("Or", &a, &variable("b")), true)), 4));
    assert_eq!(expression_of("a & & b"), (Some((operation("And", &a, &variable("b")), true)), 4));
    let comparisons = operation(
        "And",
        &operation(
            "And",
            &operation(
                "And",
                &operation("Gt", &integer(23), &integer(6)),
                &operation("Lt", &integer(11), &integer(23)),
            ),
            &operation("Lte", &integer(5), &integer(6)),
        ),
        &operation("Gte", &integer(5), &integer(3)),
    );
    assert_eq!(
        expression_of("23 > 6 && 11 < 23 && 5 <= 6 && 5 >= 3;"),
        (Some((comparisons, true)), 20)
    );
    let verdict = operation(
        "Or",
        &operation(
            "And",
            &operation("And", &variable("eq"), &variable("ne")),
            &variable("cmp"),
        ),
        "algorithmify::expressions::Expression::Bool(false)",
    );
    assert_eq!(expression_of("(eq && ne && cmp) || false"), (Some((verdict, true)), 4));
}

#[test]
fn a_comparison_of_one_character_takes_a_whole_comparison_on_its_right() {
    let chain = operation(
        "Lt",
        &variable("a"),
        &operation("Lt", &variable("b"), &variable("c")),
    );
    assert_eq!(expression_of("a < b < c"), (Some((chain, true)), 5));
}

#[test]
fn vectors_are_lists_or_repetitions() {
    let list = format!(
        "algorithmify::expressions::Expression::Vector(vec![{}])",
        format!("{},{},{},", integer(1), integer(2), integer(3))
    );
    assert_eq!(expression_of("vec![1, 2, 3]"), (Some((list.clone(), false)), 3));
    assert_eq!(expression_of("vec![1, 2, 3,]"), (Some((list, false)), 3));
    assert_eq!(
        expression_of("vec![]"),
        (Some(("algorithmify::expressions::Expression::Vector(vec![])".to_owned(), false)), 3)
    );
    let repeated = format!(
        "algorithmify::expressions::Expression::Vector(vec![{};{}])",
        integer(0),
        3
    );
    assert_eq!(expression_of("vec![0; 3]"), (Some((repeated, false)), 3));
    assert_eq!(expression_of("vec![0; n]"), (Some((variable("vec"), true)), 1));
    assert_eq!(expression_of("vec![0; 3 4]"), (Some((variable("vec"), true)), 1));
    assert_eq!(expression_of("vec![1 2]"), (Some((format!(
        "algorithmify::expressions::Expression::Vector(vec![{}])",
        format!("{},{},", integer(1), integer(2))
    ), false)), 3));
    assert_eq!(expression_of("vec![1, +]"), (Some((variable("vec"), true)), 1));
    for (source, mapper) in [
        ("vec(1)", map_vec_sequence as fn(&mut TokenIterator) -> _),
        ("vec!(1)", map_vec_sequence),
        ("vec![1; 2", map_vec_shorthand),
        ("vec", map_vec_shorthand),
    ] {
        let tokens = if source.ends_with("2") { tokens("vec ! ") } else { tokens(source) };
        let mut iterator = TokenIterator::from(&tokens);
        assert_eq!(mapper(&mut iterator), Ok(None));
        assert_eq!(iterator.index, 0);
    }
}

#[test]
fn calls_name_the_builder_of_the_function() {
    let params = format!("{},{},", integer(1), variable("a"));
    assert_eq!(expression_of("sum(1, a)"), (Some((function_call("sum", &params), true)), 2));
    assert_eq!(expression_of("now()"), (Some((function_call("now", ""), true)), 2));
    assert_eq!(
        expression_of("sum(1, + 2)"),
        (Some((function_call("sum", &format!("{},", integer(1))), true)), 2)
    );
    let tokens = tokens("sum [1]");
    let mut iterator = TokenIterator::from(&tokens);
    assert_eq!(map_function_call(&mut iterator), Ok(None));
    assert_eq!(iterator.index, 0);
}

#[test]
fn blocks_conditionals_and_loops_need_no_semicolon() {
    let a_plus = operation("Add", &variable("a"), &integer(2));
    let body = format!(
        "{},{},",
        assignment(&reference("a"), &integer(1)),
        expression_statement(&a_plus)
    );
    assert_eq!(expression_of("{ let a = 1; a + 2 }"), (Some((block(&body), false)), 1));

    let increment = format!(
        "{},",
        assignment(&reference("result"), &operation("Add", &variable("result"), &integer(1)))
    );
    let condition = operation("Lt", &variable("result"), &integer(10));
    assert_eq!(
        expression_of("if result < 10 { result = result + 1; } result"),
        (Some((conditional(&increment, &condition, "None"), false)), 5)
    );
    let otherwise = format!("Some({})", block(&increment));
    assert_eq!(
        expression_of("if result < 10 { } else { result = result + 1; }"),
        (Some((conditional("", &condition, &otherwise), false)), 7)
    );
    let nested = format!("Some({})", conditional("", &variable("b"), &format!("Some({})", block(""))));
    assert_eq!(
        expression_of("if a { } else if b { } else { }"),
        (Some((conditional("", &variable("a"), &nested), false)), 9)
    );
    assert_eq!(expression_of("if a { } else 1"), (Some((variable("if"), true)), 1));

    let accumulate = format!(
        "{},",
        assignment(&reference("acc"), &operation("Add", &variable("acc"), &variable("i")))
    );
    assert_eq!(
        expression_of("for i in 1..10 { acc = acc + i; }"),
        (Some((for_loop("None", &accumulate, &reference("i"), &integer(1), &integer(10)), false)), 8)
    );
    assert_eq!(
        expression_of("'main: for mut i in start..end { }"),
        (
            Some((
                for_loop(
                    "Some(\"main\".to_owned())",
                    "",
                    &reference("i"),
                    &variable("start"),
                    &variable("end")
                ),
                false
            )),
            12
        )
    );
    assert_eq!(
        expression_of("while acc < 10 { acc = acc + i; }"),
        (Some((while_loop("None", &accumulate, &operation("Lt", &variable("acc"), &integer(10))), false)), 5)
    );
    assert_eq!(
        expression_of("'outer: while true { }"),
        (
            Some((
                while_loop(
                    "Some(\"outer\".to_owned())",
                    "",
                    "algorithmify::expressions::Expression::Bool(true)"
                ),
                false
            )),
            6
        )
    );
}

#[test]
fn a_tag_is_an_apostrophe_a_name_and_a_colon() {
    let tag_of = |source: &str| {
        let tokens = tokens(source);
        let mut iterator = TokenIterator::from(&tokens);
        let tag = try_get_tag(&mut iterator);
        (tag, iterator.index)
    };
    assert_eq!(tag_of("'main: for"), ("Some(\"main\".to_owned())".to_owned(), 3));
    assert_eq!(tag_of("'main for"), ("None".to_owned(), 0));
    assert_eq!(tag_of("main: for"), ("None".to_owned(), 0));
    assert_eq!(tag_of("'main"), ("None".to_owned(), 0));
    assert_eq!(tag_of(""), ("None".to_owned(), 0));
}

#[test]
fn readings_are_tried_in_their_order() {
    let tokens = tokens("{ } rest");
    let mut iterator = TokenIterator::from(&tokens);
    let found = alt(&mut iterator, &[Alternative::IfCondition, Alternative::Block]).unwrap();
    assert_eq!(found.map(|found| found.mapping), Some(block("")));
    assert_eq!(iterator.index, 1);
    iterator.rewind_to(0);
    assert_eq!(alt(&mut iterator, &[Alternative::IfCondition, Alternative::WhileLoop]), Ok(None));
    assert_eq!(iterator.index, 0);
    assert_eq!(alt(&mut iterator, &[]), Ok(None));
    assert_eq!(map_block(&mut TokenIterator::from(&tokens[1..])), Ok(None));
    assert_eq!(map_if_condition(&mut TokenIterator::from(&tokens[1..])), Ok(None));
    assert_eq!(map_for_loop(&mut TokenIterator::from(&tokens[1..])), Ok(None));
    assert_eq!(map_while_loop(&mut TokenIterator::from(&tokens[1..])), Ok(None));
}

#[test]
fn statements_are_assignments_or_expressions() {
    let one = integer(1);
    assert_eq!(
        statements_of("let mut a = 1; a = a + 2; a"),
        Ok(format!(
            "{},{},{},",
            assignment(&reference("a"), &one),
            assignment(&reference("a"), &operation("Add", &variable("a"), &integer(2))),
            expression_statement(&variable("a"))
        ))
    );
    assert_eq!(
        statements_of("v[i] = 1; let v[0] = 1;"),
        Ok(format!(
            "{},{},",
            indexed_assignment(&indexed_reference("v", &variable("i")), &one),
            indexed_assignment(&indexed_reference("v", &integer(0)), &one)
        ))
    );
    assert_eq!(statements_of(""), Ok(String::new()));
}

#[test]
fn the_semicolon_rule_for_expression_statements() {
    let a = expression_statement(&variable("a"));
    let b = expression_statement(&variable("b"));
    let empty = expression_statement(&block(""));
    assert_eq!(statements_of("a; b"), Ok(format!("{},{},", a, b)));
    assert_eq!(statements_of("a;"), Ok(format!("{},", a)));
    assert_eq!(statements_of("a"), Ok(format!("{},", a)));
    assert_eq!(statements_of("{} a"), Ok(format!("{},{},", empty, a)));
    assert_eq!(statements_of("{}; a"), Ok(format!("{},{},", empty, a)));
    assert_eq!(statements_of("a b"), Err(not_recognized(&["a", "b"])));
}

#[test]
fn a_statement_that_reads_as_nothing_gives_the_input_up() {
    assert_eq!(statements_of("let = 1;"), Err(not_recognized(&["let", "=", "1", ";"])));
    assert_eq!(
        statements_of("a; + b c d e f g"),
        Err(not_recognized(&["+", "b", "c", "d", "e"]))
    );
    assert_eq!(statements_of("let a = { + };"), Err(not_recognized(&["+"])));
    assert_eq!(statements_of("a = (if b { ; });"), Err(not_recognized(&[";"])));
    assert_eq!(statements_of("v[{ ; }] = 1;"), Err(not_recognized(&[";"])));
    assert_eq!(statements_of("f({ ; })"), Err(not_recognized(&[";"])));
    assert_eq!(statements_of("vec![{ ; }]"), Err(not_recognized(&[";"])));
    assert_eq!(statements_of("while a { ; }"), Err(not_recognized(&[";"])));
    assert_eq!(statements_of("for i in 0..1 { ; }"), Err(not_recognized(&[";"])));
    assert_eq!(statements_of("1 + ({ ; })"), Err(not_recognized(&[";"])));
    assert_eq!(statements_of("1 + { ; }"), Err(not_recognized(&["1", "+", "{ ; }"])));
    let source = "for i in 1..vector.len() { }";
    assert_eq!(
        statements_of(source),
        Err(not_recognized(&["for", "i", "in", "1", "."]))
    );
}

#[test]
fn single_statement_readings_leave_the_cursor_where_they_fail() {
    for source in ["a + 1;", "let a 1;", "let a = ;", "let a = 1", ""] {
        let tokens = tokens(source);
        let mut iterator = TokenIterator::from(&tokens);
        assert_eq!(try_map_assignment(&mut iterator), Ok(None), "{}", source);
        assert_eq!(iterator.index, 0);
    }
    for source in ["a = 1;", "v[0] 1;", "v[0] = ;", "v[0] = 1", "v[0 1] = 1;"] {
        let tokens = tokens(source);
        let mut iterator = TokenIterator::from(&tokens);
        assert_eq!(try_map_indexed_assignment(&mut iterator), Ok(None), "{}", source);
        assert_eq!(iterator.index, 0);
    }
    let tokens = tokens("a b");
    let mut iterator = TokenIterator::from(&tokens);
    assert_eq!(try_map_expression(&mut iterator), Ok(None));
    assert_eq!(iterator.index, 0);
    assert_eq!(try_get_indexed_access(&mut iterator), Ok(None));
    assert_eq!(try_get_identifier(&mut iterator), Some("a".to_owned()));
    assert_eq!(try_get_usize(&mut iterator), None);
    assert_eq!(iterator.index, 2);
    let mut buffer = "before;".to_owned();
    iterator.rewind_to(1);
    assert_eq!(map_statement(&mut buffer, &mut iterator), Ok(()));
    assert_eq!(buffer, format!("before;{},", expression_statement(&variable("b"))));
}

#[test]
fn parameters_are_names_with_types_of_one_word() {
    assert_eq!(
        map_args(&group("(a: i32, b: i32)")),
        Some("\"a\".to_owned(), \"b\".to_owned()".to_owned())
    );
    assert_eq!(map_args(&group("(a: i32,)")), Some("\"a\".to_owned()".to_owned()));
    assert_eq!(map_args(&group("()")), Some(String::new()));
    assert_eq!(map_args(&group("(vector: Vec<T>)")), None);
    assert_eq!(map_args(&group("(mut vector: usize)")), None);
    assert_eq!(map_args(&group("(a)")), None);
}

#[test]
fn a_function_lowers_to_its_builder() {
    let stream = tokens("fn addition() -> i32 { let mut a = 1; a = a + 2; a }");
    let statements = format!(
        "{},{},{},",
        assignment(&reference("a"), &integer(1)),
        assignment(&reference("a"), &operation("Add", &variable("a"), &integer(2))),
        expression_statement(&variable("a"))
    );
    assert_eq!(
        define_function_builder(&stream, &vec![]),
        Ok(builder("addition", "", &statements, ""))
    );
    let stream = tokens("pub fn sum(a: i32, b: i32) -> i32 { a + b }");
    assert_eq!(
        define_function_builder(&stream, &vec![]),
        Ok(builder(
            "sum",
            "\"a\".to_owned(), \"b\".to_owned()",
            &format!(
                "{},",
                expression_statement(&operation("Add", &variable("a"), &variable("b")))
            ),
            ""
        ))
    );
    let stream = tokens("fn generic<T>(i: usize, vector: Vec<T>) -> bool { true }");
    assert_eq!(
        define_function_builder(&stream, &vec![]),
        Ok(builder(
            "generic",
            "",
            &format!(
                "{},",
                expression_statement("algorithmify::expressions::Expression::Bool(true)")
            ),
            ""
        ))
    );
    assert_eq!(define_function_builder(&tokens("fn declared"), &vec![]), Ok(builder("declared", "", "", "")));
}

#[test]
fn a_function_without_a_name_cannot_be_lowered() {
    assert_eq!(
        define_function_builder(&tokens("struct S { }"), &vec![]),
        Err(LoweringError::MissingFunctionName)
    );
    assert_eq!(
        define_function_builder(&tokens("pub fn"), &vec![]),
        Err(LoweringError::MissingFunctionName)
    );
    assert_eq!(
        define_function_builder(&tokens("{ let = } fn"), &vec![]),
        Err(not_recognized(&["let", "="]))
    );
    assert_eq!(
        define_function_builder(&tokens("fn f() { let = }"), &tokens("tag")),
        Err(not_recognized(&["let", "="]))
    );
    assert_eq!(
        define_function_builder(&tokens("f() { }"), &tokens("tag")),
        Err(LoweringError::MissingFunctionName)
    );
}

fn condition(slot: &str, function: &str) -> String {
    format!(
        "{}: Some((\"{}\".to_owned(), algorithmify::expressions::FunctionBuilder::new({}__function_builder()))),",
        slot, function, function
    )
}

fn contract(tag: &str, conditions: &str) -> String {
    format!(
        "(\"{}\".to_owned(), algorithmify::expressions::loops::Contract {{{}..Default::default()}}),",
        tag, conditions
    )
}

#[test]
fn the_attribute_payload_lowers_to_the_contract_table() {
    let attrs = tokens(
        "main: {
            pre_condition: insertion_sort_pre_condition,
            post_condition: insertion_sort_post_condition,
            maintenance_condition: insertion_sort_maintenance_condition
        }",
    );
    let conditions = format!(
        "{}{}{}",
        condition("pre_condition", "insertion_sort_pre_condition"),
        condition("post_condition", "insertion_sort_post_condition"),
        condition("maintenance_condition", "insertion_sort_maintenance_condition")
    );
    assert_eq!(build_contracts(&attrs), Ok(contract("main", &conditions)));
    assert_eq!(
        define_function_builder(&tokens("fn f() { }"), &attrs),
        Ok(builder("f", "", "", &contract("main", &conditions)))
    );
    assert_eq!(
        build_contracts(&tokens("a: { }, b: { anything: f, }")),
        Ok(format!("{}{}", contract("a", ""), contract("b", &condition("anything", "f"))))
    );
    assert_eq!(build_contracts(&vec![]), Ok(String::new()));
    let inner = tokens("pre_condition: f");
    assert_eq!(
        build_contract("t".to_owned(), TokenIterator::from(&inner)),
        Ok(contract("t", &condition("pre_condition", "f")))
    );
}

#[test]
fn a_malformed_attribute_payload_gives_the_input_up() {
    assert_eq!(build_contracts(&tokens("main { }")), Err(LoweringError::ExpectedColon(1)));
    assert_eq!(build_contracts(&tokens("main")), Err(LoweringError::ExpectedColon(1)));
    assert_eq!(build_contracts(&tokens("main: f")), Err(LoweringError::ExpectedBracedGroup(2)));
    assert_eq!(build_contracts(&tokens("main: (a: f)")), Err(LoweringError::ExpectedBracedGroup(2)));
    assert_eq!(build_contracts(&tokens("main:")), Err(LoweringError::ExpectedBracedGroup(2)));
    assert_eq!(
        build_contracts(&tokens("a: { }, main: { pre_condition f }")),
        Err(LoweringError::ExpectedColon(1))
    );
    assert_eq!(
        build_contracts(&tokens("main: { pre_condition: 1 }")),
        Err(LoweringError::ExpectedFunctionName(2))
    );
    assert_eq!(
        build_contracts(&tokens("main: { a: f, pre_condition: }")),
        Err(LoweringError::ExpectedFunctionName(6))
    );
    assert_eq!(
        define_function_builder(&tokens("fn f() { }"), &tokens("main")),
        Err(LoweringError::ExpectedColon(1))
    );
}
