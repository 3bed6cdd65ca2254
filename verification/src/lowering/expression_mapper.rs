//! Lowering of expressions: precedence climbing over four tiers of
//! operators, and the readings that are tried before it.

use vstd::prelude::*;
use crate::lowering::condition_mapper::map_if_condition;
use crate::lowering::error::{LoweringError, folds, yields};
use crate::lowering::grammar::{
    Alternative,
    Mapping,
    alternative,
    block,
    expression,
    expression_alternatives,
    first_of,
    first_tier,
    first_tier_fold,
    first_tier_rest,
    fourth_tier,
    fourth_tier_fold,
    fourth_tier_rest,
    function_call,
    indexed_access,
    indexed_reference_expression_text,
    indexed_reference_text,
    integer_text,
    left,
    listed,
    operation_text,
    reference_expression_text,
    reference_text,
    second_tier,
    second_tier_fold,
    second_tier_rest,
    simple_expression,
    statements,
    third_tier,
    third_tier_double,
    third_tier_double_fold,
    third_tier_single,
    third_tier_single_fold,
    value,
    vec_sequence,
    vec_shorthand,
};
use crate::lowering::loop_mapper::{map_for_loop, map_while_loop};
use crate::lowering::numbers::{i32_of, parse_i32, parse_usize, text_of_i32, text_of_usize, usize_of};
use crate::lowering::statement_mapper::map_statement;
use crate::text::{fill1, fill2, fill3, is_text};
use crate::lowering::token_container::{Delimiter, Group, TokenTree};
use crate::lowering::token_iterator::TokenIterator;

verus! {

/// The constructor text of an expression, and whether a statement made of it
/// needs a semicolon unless it is the last one.
#[derive(Debug, PartialEq)]
pub struct ExpressionMapping {
    pub mapping: String,
    pub needs_semicolon_unless_final: bool,
}

impl View for ExpressionMapping {
    type V = Mapping;

    open spec fn view(&self) -> Mapping {
        Mapping {
            text: self.mapping@,
            needs_semicolon_unless_final: self.needs_semicolon_unless_final,
        }
    }
}

/// Tries one reading of an expression.
pub fn attempt(which: Alternative, iterator: &mut TokenIterator) -> (r: Result<
    Option<ExpressionMapping>,
    LoweringError,
>)
    ensures
        yields(
            *old(iterator),
            *final(iterator),
            r,
            alternative(which, old(iterator).tokens@, old(iterator).index as nat),
        ),
    decreases old(iterator).tokens@, left(old(iterator).tokens@, old(iterator).index as nat), 33nat, 0nat,
{
    match which {
        Alternative::FunctionCall => map_function_call(iterator),
        Alternative::VecShorthand => map_vec_shorthand(iterator),
        Alternative::VecSequence => map_vec_sequence(iterator),
        Alternative::IfCondition => map_if_condition(iterator),
        Alternative::Block => map_block(iterator),
        Alternative::ForLoop => map_for_loop(iterator),
        Alternative::WhileLoop => map_while_loop(iterator),
        Alternative::SimpleExpression => map_simple_expression(iterator),
    }
}

/// Tries the readings in their order, each from the same position, and
/// takes the first that fits.
#[verifier::loop_isolation(false)]
pub fn alt(iterator: &mut TokenIterator, functions: &[Alternative]) -> (r: Result<
    Option<ExpressionMapping>,
    LoweringError,
>)
    ensures
        yields(
            *old(iterator),
            *final(iterator),
            r,
            first_of(functions@, 0, old(iterator).tokens@, old(iterator).index as nat),
        ),
    decreases old(iterator).tokens@, left(old(iterator).tokens@, old(iterator).index as nat), 34nat, 1nat,
{
    let start_index = iterator.index;
    let ghost whole = first_of(functions@, 0, iterator.tokens@, start_index as nat);
    let mut i: usize = 0;
    while i < functions.len()
        invariant
            i <= functions@.len(),
            iterator.tokens == old(iterator).tokens,
            iterator.index == start_index,
            first_of(functions@, i as nat, iterator.tokens@, start_index as nat) == whole,
        decreases functions@.len() - i,
    {
        match attempt(functions[i], iterator) {
            Err(error) => {
                return Err(error);
            },
            Ok(Some(result)) => {
                return Ok(Some(result));
            },
            Ok(None) => {
                iterator.index = start_index;
            },
        }
        i += 1;
    }
    Ok(None)
}

/// Maps the tokens of a group as statements, to the constructors of the
/// statements, each followed by a comma.
#[verifier::loop_isolation(false)]
pub fn map_statements(body: &Group) -> (r: Result<String, LoweringError>)
    ensures
        match statements(body.stream@, 0, Seq::empty()) {
            Ok(text) => r matches Ok(found) && found@ == text,
            Err(diagnostic) => r matches Err(error) && error@ == diagnostic,
        },
    decreases body.stream@, body.stream@.len() + 1, 41nat, 0nat,
{
    let mut iterator = TokenIterator::over(&body.stream);
    let ghost whole = statements(body.stream@, 0, Seq::empty());
    let mut text = String::new();
    while iterator.peek().is_some()
        invariant
            iterator.tokens@ == body.stream@,
            iterator.index <= body.stream@.len(),
            statements(body.stream@, iterator.index as nat, text@) == whole,
        decreases body.stream@.len() - iterator.index,
    {
        match map_statement(&mut text, &mut iterator) {
            Ok(()) => {},
            Err(error) => {
                return Err(error);
            },
        }
    }
    Ok(text)
}

fn fold_first_tier(operator: &String, lhs: String, rhs: String) -> (r: Result<String, String>)
    ensures
        match first_tier_fold(operator@, lhs@, rhs@) {
            Some(folded) => r matches Ok(found) && found@ == folded,
            None => r matches Err(kept) && kept@ == lhs@,
        },
{
    if is_text(operator, "*") {
        Ok(map_multiplication(lhs, rhs))
    } else if is_text(operator, "/") {
        Ok(map_division(lhs, rhs))
    } else if is_text(operator, "&") {
        Ok(map_bitwise_and(lhs, rhs))
    } else if is_text(operator, "|") {
        Ok(map_bitwise_or(lhs, rhs))
    } else {
        Err(lhs)
    }
}

fn fold_second_tier(operator: &String, lhs: String, rhs: String) -> (r: Result<String, String>)
    ensures
        match second_tier_fold(operator@, lhs@, rhs@) {
            Some(folded) => r matches Ok(found) && found@ == folded,
            None => r matches Err(kept) && kept@ == lhs@,
        },
{
    if is_text(operator, "+") {
        Ok(map_addition(lhs, rhs))
    } else if is_text(operator, "-") {
        Ok(map_substraction(lhs, rhs))
    } else {
        Err(lhs)
    }
}

fn fold_third_tier_double(operator: &String, lhs: String, rhs: String) -> (r: Result<String, String>)
    ensures
        match third_tier_double_fold(operator@, lhs@, rhs@) {
            Some(folded) => r matches Ok(found) && found@ == folded,
            None => r matches Err(kept) && kept@ == lhs@,
        },
{
    if is_text(operator, "==") {
        Ok(map_eq(lhs, rhs))
    } else if is_text(operator, "!=") {
        Ok(map_ne(lhs, rhs))
    } else if is_text(operator, ">=") {
        Ok(map_gte(lhs, rhs))
    } else if is_text(operator, "<=") {
        Ok(map_lte(lhs, rhs))
    } else {
        Err(lhs)
    }
}

fn fold_third_tier_single(operator: &String, lhs: String, rhs: String) -> (r: Result<String, String>)
    ensures
        match third_tier_single_fold(operator@, lhs@, rhs@) {
            Some(folded) => r matches Ok(found) && found@ == folded,
            None => r matches Err(kept) && kept@ == lhs@,
        },
{
    if is_text(operator, ">") {
        Ok(map_gt(lhs, rhs))
    } else if is_text(operator, "<") {
        Ok(map_lt(lhs, rhs))
    } else {
        Err(lhs)
    }
}

fn fold_fourth_tier(operator: &String, lhs: String, rhs: String) -> (r: Result<String, String>)
    ensures
        match fourth_tier_fold(operator@, lhs@, rhs@) {
            Some(folded) => r matches Ok(found) && found@ == folded,
            None => r matches Err(kept) && kept@ == lhs@,
        },
{
    if is_text(operator, "&&") {
        Ok(map_logical_and(lhs, rhs))
    } else if is_text(operator, "||") {
        Ok(map_logical_or(lhs, rhs))
    } else {
        Err(lhs)
    }
}

/// Folds first-tier operators and their right operands into `lhs` as far as they go.
fn first_tier_folds(iterator: &mut TokenIterator, lhs: String) -> (r: Result<String, LoweringError>)
    requires
        old(iterator).index <= old(iterator).tokens@.len(),
    ensures
        folds(
            *old(iterator),
            *final(iterator),
            r,
            first_tier_rest(old(iterator).tokens@, old(iterator).index as nat, lhs@),
        ),
    decreases old(iterator).tokens@, left(old(iterator).tokens@, old(iterator).index as nat), 21nat, 0nat,
{
    let index = iterator.index;
    let operator = match iterator.next() {
        Some(token) => token.to_text(),
        None => {
            return Ok(lhs);
        },
    };
    match map_value(iterator) {
        Err(error) => Err(error),
        Ok(None) => {
            iterator.rewind_to(index);
            Ok(lhs)
        },
        Ok(Some(rhs)) => match fold_first_tier(&operator, lhs, rhs) {
            Ok(folded) => first_tier_folds(iterator, folded),
            Err(lhs) => {
                iterator.rewind_to(index);
                Ok(lhs)
            },
        },
    }
}

/// Maps values joined by `*`, `/`, `&` and `|`.
pub fn map_first_tier_precedence_expression(iterator: &mut TokenIterator) -> (r: Result<Option<String>, LoweringError>)
    ensures
        yields(
            *old(iterator),
            *final(iterator),
            r,
            first_tier(old(iterator).tokens@, old(iterator).index as nat),
        ),
    decreases old(iterator).tokens@, left(old(iterator).tokens@, old(iterator).index as nat), 22nat, 0nat,
{
    match map_value(iterator) {
        Err(error) => Err(error),
        Ok(None) => Ok(None),
        Ok(Some(lhs)) => match first_tier_folds(iterator, lhs) {
            Ok(folded) => Ok(Some(folded)),
            Err(error) => Err(error),
        },
    }
}

/// Folds second-tier operators and their right operands into `lhs` as far as they go.
fn second_tier_folds(iterator: &mut TokenIterator, lhs: String) -> (r: Result<String, LoweringError>)
    requires
        old(iterator).index <= old(iterator).tokens@.len(),
    ensures
        folds(
            *old(iterator),
            *final(iterator),
            r,
            second_tier_rest(old(iterator).tokens@, old(iterator).index as nat, lhs@),
        ),
    decreases old(iterator).tokens@, left(old(iterator).tokens@, old(iterator).index as nat), 23nat, 0nat,
{
    let index = iterator.index;
    let operator = match iterator.next() {
        Some(token) => token.to_text(),
        None => {
            return Ok(lhs);
        },
    };
    match map_first_tier_precedence_expression(iterator) {
        Err(error) => Err(error),
        Ok(None) => {
            iterator.rewind_to(index);
            Ok(lhs)
        },
        Ok(Some(rhs)) => match fold_second_tier(&operator, lhs, rhs) {
            Ok(folded) => second_tier_folds(iterator, folded),
            Err(lhs) => {
                iterator.rewind_to(index);
                Ok(lhs)
            },
        },
    }
}

/// Maps first-tier expressions joined by `+` and `-`.
pub fn map_second_tier_precedence_expression(iterator: &mut TokenIterator) -> (r: Result<Option<String>, LoweringError>)
    ensures
        yields(
            *old(iterator),
            *final(iterator),
            r,
            second_tier(old(iterator).tokens@, old(iterator).index as nat),
        ),
    decreases old(iterator).tokens@, left(old(iterator).tokens@, old(iterator).index as nat), 24nat, 0nat,
{
    match map_first_tier_precedence_expression(iterator) {
        Err(error) => Err(error),
        Ok(None) => Ok(None),
        Ok(Some(lhs)) => match second_tier_folds(iterator, lhs) {
            Ok(folded) => Ok(Some(folded)),
            Err(error) => Err(error),
        },
    }
}

/// Folds the comparisons of two characters and their right operands into `lhs` as far as they go.
fn third_tier_double_folds(iterator: &mut TokenIterator, lhs: String) -> (r: Result<String, LoweringError>)
    requires
        old(iterator).index <= old(iterator).tokens@.len(),
    ensures
        folds(
            *old(iterator),
            *final(iterator),
            r,
            third_tier_double(old(iterator).tokens@, old(iterator).index as nat, lhs@),
        ),
    decreases old(iterator).tokens@, left(old(iterator).tokens@, old(iterator).index as nat), 25nat, 0nat,
{
    let index = iterator.index;
    let operator = match iterator.next_nth_string(2) {
        Some(operator) => operator,
        None => {
            return Ok(lhs);
        },
    };
    match map_second_tier_precedence_expression(iterator) {
        Err(error) => Err(error),
        Ok(None) => {
            iterator.rewind_to(index);
            Ok(lhs)
        },
        Ok(Some(rhs)) => match fold_third_tier_double(&operator, lhs, rhs) {
            Ok(folded) => third_tier_double_folds(iterator, folded),
            Err(lhs) => {
                iterator.rewind_to(index);
                Ok(lhs)
            },
        },
    }
}

/// Folds the comparisons of one character and their right operands into `lhs` as far as they go.
fn third_tier_single_folds(iterator: &mut TokenIterator, lhs: String) -> (r: Result<String, LoweringError>)
    requires
        old(iterator).index <= old(iterator).tokens@.len(),
    ensures
        folds(
            *old(iterator),
            *final(iterator),
            r,
            third_tier_single(old(iterator).tokens@, old(iterator).index as nat, lhs@),
        ),
    decreases old(iterator).tokens@, left(old(iterator).tokens@, old(iterator).index as nat), 26nat, 0nat,
{
    let index = iterator.index;
    let operator = match iterator.next() {
        Some(token) => token.to_text(),
        None => {
            return Ok(lhs);
        },
    };
    match map_third_tier_precedence_expression(iterator) {
        Err(error) => Err(error),
        Ok(None) => {
            iterator.rewind_to(index);
            Ok(lhs)
        },
        Ok(Some(rhs)) => match fold_third_tier_single(&operator, lhs, rhs) {
            Ok(folded) => third_tier_single_folds(iterator, folded),
            Err(lhs) => {
                iterator.rewind_to(index);
                Ok(lhs)
            },
        },
    }
}

/// Maps second-tier expressions joined by comparisons, those of two characters before those of one.
pub fn map_third_tier_precedence_expression(iterator: &mut TokenIterator) -> (r: Result<Option<String>, LoweringError>)
    ensures
        yields(
            *old(iterator),
            *final(iterator),
            r,
            third_tier(old(iterator).tokens@, old(iterator).index as nat),
        ),
    decreases old(iterator).tokens@, left(old(iterator).tokens@, old(iterator).index as nat), 28nat, 0nat,
{
    match map_second_tier_precedence_expression(iterator) {
        Err(error) => Err(error),
        Ok(None) => Ok(None),
        Ok(Some(lhs)) => match third_tier_double_folds(iterator, lhs) {
            Err(error) => Err(error),
            Ok(folded) => match third_tier_single_folds(iterator, folded) {
                Ok(folded) => Ok(Some(folded)),
                Err(error) => Err(error),
            },
        },
    }
}

/// Folds logical operators and their right operands into `lhs` as far as they go.
fn fourth_tier_folds(iterator: &mut TokenIterator, lhs: String) -> (r: Result<String, LoweringError>)
    requires
        old(iterator).index <= old(iterator).tokens@.len(),
    ensures
        folds(
            *old(iterator),
            *final(iterator),
            r,
            fourth_tier_rest(old(iterator).tokens@, old(iterator).index as nat, lhs@),
        ),
    decreases old(iterator).tokens@, left(old(iterator).tokens@, old(iterator).index as nat), 29nat, 0nat,
{
    let index = iterator.index;
    let operator = match iterator.next_nth_string(2) {
        Some(operator) => operator,
        None => {
            return Ok(lhs);
        },
    };
    match map_third_tier_precedence_expression(iterator) {
        Err(error) => Err(error),
        Ok(None) => {
            iterator.rewind_to(index);
            Ok(lhs)
        },
        Ok(Some(rhs)) => match fold_fourth_tier(&operator, lhs, rhs) {
            Ok(folded) => fourth_tier_folds(iterator, folded),
            Err(lhs) => {
                iterator.rewind_to(index);
                Ok(lhs)
            },
        },
    }
}

/// Maps third-tier expressions joined by `&&` and `||`.
pub fn map_fourth_tier_precedence_expression(iterator: &mut TokenIterator) -> (r: Result<Option<String>, LoweringError>)
    ensures
        yields(
            *old(iterator),
            *final(iterator),
            r,
            fourth_tier(old(iterator).tokens@, old(iterator).index as nat),
        ),
    decreases old(iterator).tokens@, left(old(iterator).tokens@, old(iterator).index as nat), 30nat, 0nat,
{
    match map_third_tier_precedence_expression(iterator) {
        Err(error) => Err(error),
        Ok(None) => Ok(None),
        Ok(Some(lhs)) => match fourth_tier_folds(iterator, lhs) {
            Ok(folded) => Ok(Some(folded)),
            Err(error) => Err(error),
        },
    }
}

/// Maps an expression built from operators alone.
pub fn map_simple_expression(iterator: &mut TokenIterator) -> (r: Result<Option<ExpressionMapping>, LoweringError>)
    ensures
        yields(
            *old(iterator),
            *final(iterator),
            r,
            simple_expression(old(iterator).tokens@, old(iterator).index as nat),
        ),
    decreases old(iterator).tokens@, left(old(iterator).tokens@, old(iterator).index as nat), 31nat, 0nat,
{
    match map_fourth_tier_precedence_expression(iterator) {
        Err(error) => Err(error),
        Ok(None) => Ok(None),
        Ok(Some(mapping)) => Ok(Some(ExpressionMapping { mapping, needs_semicolon_unless_final: true })),
    }
}

/// Maps expressions one after the other, each followed by an optional
/// comma, as far as they go, and adds their constructors to `gathered`.
fn map_list(iterator: &mut TokenIterator, gathered: String) -> (r: Result<String, LoweringError>)
    requires
        old(iterator).index <= old(iterator).tokens@.len(),
    ensures
        folds(
            *old(iterator),
            *final(iterator),
            r,
            listed(old(iterator).tokens@, old(iterator).index as nat, gathered@),
        ),
    decreases old(iterator).tokens@, left(old(iterator).tokens@, old(iterator).index as nat), 36nat, 0nat,
{
    match map_expression(iterator) {
        Err(error) => Err(error),
        Ok(None) => Ok(gathered),
        Ok(Some(result)) => {
            let mut gathered = gathered;
            gathered.append(result.mapping.as_str());
            gathered.append(",");
            iterator.try_get_next_token(",");
            map_list(iterator, gathered)
        },
    }
}

/// Maps `vec![E1, E2, ...]`.
pub fn map_vec_sequence(iterator: &mut TokenIterator) -> (r: Result<Option<ExpressionMapping>, LoweringError>)
    ensures
        yields(
            *old(iterator),
            *final(iterator),
            r,
            vec_sequence(old(iterator).tokens@, old(iterator).index as nat),
        ),
    decreases old(iterator).tokens@, left(old(iterator).tokens@, old(iterator).index as nat), 32nat, 0nat,
{
    let index = iterator.index;
    let group = match vec_group(iterator) {
        Some(group) => group,
        None => {
            iterator.rewind_to(index);
            return Ok(None);
        },
    };
    let mut inner = TokenIterator::over(&group.stream);
    let expressions = match map_list(&mut inner, String::new()) {
        Ok(expressions) => expressions,
        Err(error) => {
            return Err(error);
        },
    };
    if inner.next().is_some() {
        iterator.rewind_to(index);
        return Ok(None);
    }
    let mapping = fill1(
        "algorithmify::expressions::Expression::Vector(vec![",
        expressions.as_str(),
        "])",
    );
    Ok(Some(ExpressionMapping { mapping, needs_semicolon_unless_final: false }))
}

/// Moves past `vec`, `!` and a bracketed group, and hands out the group.
fn vec_group<'a>(iterator: &mut TokenIterator<'a>) -> (r: Option<&'a Group>)
    ensures
        final(iterator).tokens == old(iterator).tokens,
        match r {
            Some(group) => crate::lowering::grammar::is_vec(old(iterator).tokens@, old(iterator).index as nat) && old(iterator).tokens@[old(iterator).index + 2] == TokenTree::Group(*group) && final(iterator).index == old(iterator).index
                + 3,
            None => !crate::lowering::grammar::is_vec(old(iterator).tokens@, old(iterator).index as nat),
        },
{
    if iterator.try_get_next_token("vec").is_none() {
        return None;
    }
    if iterator.try_get_next_token("!").is_none() {
        return None;
    }
    match iterator.next() {
        Some(TokenTree::Group(group)) => match group.delimiter {
            Delimiter::Bracket => Some(group),
            _ => None,
        },
        _ => None,
    }
}

/// Maps `NAME(ARGUMENTS)`.
pub fn map_function_call(iterator: &mut TokenIterator) -> (r: Result<Option<ExpressionMapping>, LoweringError>)
    ensures
        yields(
            *old(iterator),
            *final(iterator),
            r,
            function_call(old(iterator).tokens@, old(iterator).index as nat),
        ),
    decreases old(iterator).tokens@, left(old(iterator).tokens@, old(iterator).index as nat), 32nat, 0nat,
{
    let index = iterator.index;
    let identifier = match try_get_identifier(iterator) {
        Some(identifier) => identifier,
        None => {
            iterator.rewind_to(index);
            return Ok(None);
        },
    };
    match iterator.next() {
        Some(TokenTree::Group(group)) => match group.delimiter {
            Delimiter::Parenthesis => {
                let mut args_iterator = TokenIterator::over(&group.stream);
                let expressions = match map_list(&mut args_iterator, String::new()) {
                    Ok(expressions) => expressions,
                    Err(error) => {
                        return Err(error);
                    },
                };
                let mapping = fill2(
                    "algorithmify::expressions::Expression::FunctionCall(algorithmify::expressions::FunctionCall{
                    builder: algorithmify::expressions::FunctionBuilder::new(",
                    identifier.as_str(),
                    "__function_builder()), 
                    params: vec![",
                    expressions.as_str(),
                    "]
                })",
                );
                Ok(Some(ExpressionMapping { mapping, needs_semicolon_unless_final: true }))
            },
            _ => {
                iterator.rewind_to(index);
                Ok(None)
            },
        },
        _ => {
            iterator.rewind_to(index);
            Ok(None)
        },
    }
}

/// Maps `vec![ELEMENT; COUNT]`.
pub fn map_vec_shorthand(iterator: &mut TokenIterator) -> (r: Result<Option<ExpressionMapping>, LoweringError>)
    ensures
        yields(
            *old(iterator),
            *final(iterator),
            r,
            vec_shorthand(old(iterator).tokens@, old(iterator).index as nat),
        ),
    decreases old(iterator).tokens@, left(old(iterator).tokens@, old(iterator).index as nat), 32nat, 0nat,
{
    let index = iterator.index;
    let group = match vec_group(iterator) {
        Some(group) => group,
        None => {
            iterator.rewind_to(index);
            return Ok(None);
        },
    };
    let mut inner = TokenIterator::over(&group.stream);
    let expression = match map_expression(&mut inner) {
        Err(error) => {
            return Err(error);
        },
        Ok(None) => {
            iterator.rewind_to(index);
            return Ok(None);
        },
        Ok(Some(result)) => result.mapping,
    };
    if inner.try_get_next_token(";").is_none() {
        iterator.rewind_to(index);
        return Ok(None);
    }
    let repetitions = match try_get_usize(&mut inner) {
        Some(repetitions) => repetitions,
        None => {
            iterator.rewind_to(index);
            return Ok(None);
        },
    };
    if inner.next().is_some() {
        iterator.rewind_to(index);
        return Ok(None);
    }
    let count = text_of_usize(repetitions);
    let mapping = fill2(
        "algorithmify::expressions::Expression::Vector(vec![",
        expression.as_str(),
        ";",
        count.as_str(),
        "])",
    );
    Ok(Some(ExpressionMapping { mapping, needs_semicolon_unless_final: false }))
}

/// Maps an expression: a function call, a vector, a conditional, a block, a
/// loop or an expression built from operators, whichever fits first.
pub fn map_expression(iterator: &mut TokenIterator) -> (r: Result<
    Option<ExpressionMapping>,
    LoweringError,
>)
    ensures
        yields(
            *old(iterator),
            *final(iterator),
            r,
            expression(old(iterator).tokens@, old(iterator).index as nat),
        ),
    decreases old(iterator).tokens@, left(old(iterator).tokens@, old(iterator).index as nat), 35nat, 0nat,
{
    let functions = [
        Alternative::FunctionCall,
        Alternative::VecShorthand,
        Alternative::VecSequence,
        Alternative::IfCondition,
        Alternative::Block,
        Alternative::ForLoop,
        Alternative::WhileLoop,
        Alternative::SimpleExpression,
    ];
    assert(functions@ =~= expression_alternatives());
    alt(iterator, functions.as_slice())
}

/// Maps a brace-delimited group as a block of statements.
pub fn map_block(iterator: &mut TokenIterator) -> (r: Result<Option<ExpressionMapping>, LoweringError>)
    ensures
        yields(
            *old(iterator),
            *final(iterator),
            r,
            block(old(iterator).tokens@, old(iterator).index as nat),
        ),
    decreases old(iterator).tokens@, left(old(iterator).tokens@, old(iterator).index as nat), 32nat, 0nat,
{
    let index = iterator.index;
    match iterator.next() {
        Some(TokenTree::Group(group)) => match group.delimiter {
            Delimiter::Brace => {
                let statements = match map_statements(group) {
                    Ok(statements) => statements,
                    Err(error) => {
                        return Err(error);
                    },
                };
                let mapping = fill1(
                    "algorithmify::expressions::Expression::Block(Box::new(algorithmify::expressions::block::Block {
                    statements: vec![",
                    statements.as_str(),
                    "],
                })),",
                );
                Ok(Some(ExpressionMapping { mapping, needs_semicolon_unless_final: false }))
            },
            _ => {
                iterator.rewind_to(index);
                Ok(None)
            },
        },
        _ => {
            iterator.rewind_to(index);
            Ok(None)
        },
    }
}

/// The constructor of a binary operation.
fn map_operation(name: &str, lhs: String, rhs: String) -> (r: String)
    ensures
        r@ == operation_text(name@, lhs@, rhs@),
{
    fill3(
        "algorithmify::expressions::Expression::Operation(Box::new(algorithmify::expressions::Operation::",
        name,
        "(",
        lhs.as_str(),
        ", ",
        rhs.as_str(),
        ")))",
    )
}

/// The constructor of an addition.
pub fn map_addition(lhs: String, rhs: String) -> (r: String)
    ensures
        r@ == operation_text("Add"@, lhs@, rhs@),
{
    map_operation("Add", lhs, rhs)
}

/// The constructor of a subtraction.
pub fn map_substraction(lhs: String, rhs: String) -> (r: String)
    ensures
        r@ == operation_text("Sub"@, lhs@, rhs@),
{
    map_operation("Sub", lhs, rhs)
}

/// The constructor of a multiplication.
pub fn map_multiplication(lhs: String, rhs: String) -> (r: String)
    ensures
        r@ == operation_text("Mul"@, lhs@, rhs@),
{
    map_operation("Mul", lhs, rhs)
}

/// The constructor of a division.
pub fn map_division(lhs: String, rhs: String) -> (r: String)
    ensures
        r@ == operation_text("Div"@, lhs@, rhs@),
{
    map_operation("Div", lhs, rhs)
}

/// The constructor of a bitwise conjunction.
pub fn map_bitwise_and(lhs: String, rhs: String) -> (r: String)
    ensures
        r@ == operation_text("BitAnd"@, lhs@, rhs@),
{
    map_operation("BitAnd", lhs, rhs)
}

/// The constructor of a bitwise disjunction.
pub fn map_bitwise_or(lhs: String, rhs: String) -> (r: String)
    ensures
        r@ == operation_text("BitOr"@, lhs@, rhs@),
{
    map_operation("BitOr", lhs, rhs)
}

/// The constructor of a logical conjunction.
pub fn map_logical_and(lhs: String, rhs: String) -> (r: String)
    ensures
        r@ == operation_text("And"@, lhs@, rhs@),
{
    map_operation("And", lhs, rhs)
}

/// The constructor of a logical disjunction.
pub fn map_logical_or(lhs: String, rhs: String) -> (r: String)
    ensures
        r@ == operation_text("Or"@, lhs@, rhs@),
{
    map_operation("Or", lhs, rhs)
}

/// The constructor of an equality.
pub fn map_eq(lhs: String, rhs: String) -> (r: String)
    ensures
        r@ == operation_text("Eq"@, lhs@, rhs@),
{
    map_operation("Eq", lhs, rhs)
}

/// The constructor of an inequality.
pub fn map_ne(lhs: String, rhs: String) -> (r: String)
    ensures
        r@ == operation_text("Ne"@, lhs@, rhs@),
{
    map_operation("Ne", lhs, rhs)
}

/// The constructor of a less-than comparison.
pub fn map_lt(lhs: String, rhs: String) -> (r: String)
    ensures
        r@ == operation_text("Lt"@, lhs@, rhs@),
{
    map_operation("Lt", lhs, rhs)
}

/// The constructor of a less-or-equal comparison.
pub fn map_lte(lhs: String, rhs: String) -> (r: String)
    ensures
        r@ == operation_text("Lte"@, lhs@, rhs@),
{
    map_operation("Lte", lhs, rhs)
}

/// The constructor of a greater-than comparison.
pub fn map_gt(lhs: String, rhs: String) -> (r: String)
    ensures
        r@ == operation_text("Gt"@, lhs@, rhs@),
{
    map_operation("Gt", lhs, rhs)
}

/// The constructor of a greater-or-equal comparison.
pub fn map_gte(lhs: String, rhs: String) -> (r: String)
    ensures
        r@ == operation_text("Gte"@, lhs@, rhs@),
{
    map_operation("Gte", lhs, rhs)
}

/// Maps a value: an indexed access, an identifier, a decimal integer literal or a parenthesised expression.
pub fn map_value(iterator: &mut TokenIterator) -> (r: Result<Option<String>, LoweringError>)
    ensures
        yields(
            *old(iterator),
            *final(iterator),
            r,
            value(old(iterator).tokens@, old(iterator).index as nat),
        ),
    decreases old(iterator).tokens@, left(old(iterator).tokens@, old(iterator).index as nat), 20nat, 0nat,
{
    let index = iterator.index;
    match try_get_indexed_access_expression(iterator) {
        Err(error) => {
            return Err(error);
        },
        Ok(Some(reference)) => {
            return Ok(Some(reference));
        },
        Ok(None) => {},
    }
    iterator.rewind_to(index);
    match iterator.next() {
        Some(TokenTree::Ident(variable)) => Ok(Some(map_reference_expression(variable))),
        Some(TokenTree::Literal(literal)) => {
            if i32_of(literal.as_str()).is_some() {
                Ok(Some(map_integer(literal)))
            } else {
                iterator.rewind_to(index);
                Ok(None)
            }
        },
        Some(TokenTree::Group(group)) => match group.delimiter {
            Delimiter::Parenthesis => {
                let mut inner = TokenIterator::over(&group.stream);
                match map_expression(&mut inner) {
                    Err(error) => Err(error),
                    Ok(Some(result)) => {
                        if inner.next().is_none() {
                            Ok(Some(result.mapping))
                        } else {
                            iterator.rewind_to(index);
                            Ok(None)
                        }
                    },
                    Ok(None) => {
                        iterator.rewind_to(index);
                        Ok(None)
                    },
                }
            },
            _ => {
                iterator.rewind_to(index);
                Ok(None)
            },
        },
        _ => {
            iterator.rewind_to(index);
            Ok(None)
        },
    }
}

/// Maps `NAME[INDEX]`; `wrapped` says whether the access stands as an
/// expression.
fn map_indexed_access(iterator: &mut TokenIterator, wrapped: bool) -> (r: Result<
    Option<String>,
    LoweringError,
>)
    ensures
        yields(
            *old(iterator),
            *final(iterator),
            r,
            indexed_access(old(iterator).tokens@, old(iterator).index as nat, wrapped),
        ),
    decreases old(iterator).tokens@, left(old(iterator).tokens@, old(iterator).index as nat), 18nat, 0nat,
{
    let index = iterator.index;
    let ident = match iterator.next() {
        Some(TokenTree::Ident(ident)) => ident,
        _ => {
            iterator.rewind_to(index);
            return Ok(None);
        },
    };
    match iterator.next() {
        Some(TokenTree::Group(group)) => match group.delimiter {
            Delimiter::Bracket => {
                let mut inner = TokenIterator::over(&group.stream);
                match map_expression(&mut inner) {
                    Err(error) => Err(error),
                    Ok(Some(found)) => {
                        if inner.next().is_none() {
                            if wrapped {
                                Ok(Some(map_indexed_reference_expression(ident, found.mapping)))
                            } else {
                                Ok(Some(map_indexed_reference(ident, found.mapping)))
                            }
                        } else {
                            iterator.rewind_to(index);
                            Ok(None)
                        }
                    },
                    Ok(None) => {
                        iterator.rewind_to(index);
                        Ok(None)
                    },
                }
            },
            _ => {
                iterator.rewind_to(index);
                Ok(None)
            },
        },
        _ => {
            iterator.rewind_to(index);
            Ok(None)
        },
    }
}

/// Maps `NAME[INDEX]` as the target of an assignment.
pub fn try_get_indexed_access(iterator: &mut TokenIterator) -> (r: Result<Option<String>, LoweringError>)
    ensures
        yields(
            *old(iterator),
            *final(iterator),
            r,
            indexed_access(old(iterator).tokens@, old(iterator).index as nat, false),
        ),
    decreases old(iterator).tokens@, left(old(iterator).tokens@, old(iterator).index as nat), 19nat, 0nat,
{
    map_indexed_access(iterator, false)
}

/// Maps `NAME[INDEX]` as an expression.
pub fn try_get_indexed_access_expression(iterator: &mut TokenIterator) -> (r: Result<Option<String>, LoweringError>)
    ensures
        yields(
            *old(iterator),
            *final(iterator),
            r,
            indexed_access(old(iterator).tokens@, old(iterator).index as nat, true),
        ),
    decreases old(iterator).tokens@, left(old(iterator).tokens@, old(iterator).index as nat), 19nat, 0nat,
{
    map_indexed_access(iterator, true)
}

/// Moves past the token under the cursor and gives the unsigned machine
/// word that it denotes, where it is a literal that denotes one.
pub fn try_get_usize(iterator: &mut TokenIterator) -> (r: Option<usize>)
    ensures
        final(iterator).tokens == old(iterator).tokens,
        final(iterator).index == if old(iterator).index < old(iterator).tokens@.len() {
            old(iterator).index + 1
        } else {
            old(iterator).index as int
        },
        match r {
            Some(number) => old(iterator).index < old(iterator).tokens@.len() && (old(iterator).tokens@[old(iterator).index as int] matches TokenTree::Literal(text) && parse_usize(
                text@,
            ) == Some(number)),
            None => old(iterator).index < old(iterator).tokens@.len() ==> (old(iterator).tokens@[old(iterator).index as int] matches TokenTree::Literal(text) ==> parse_usize(
                text@,
            ) is None),
        },
{
    match iterator.next() {
        Some(TokenTree::Literal(literal)) => usize_of(literal.as_str()),
        _ => None,
    }
}

/// Moves past the token under the cursor and gives its name, where it is an
/// identifier.
pub fn try_get_identifier(iterator: &mut TokenIterator) -> (r: Option<String>)
    ensures
        final(iterator).tokens == old(iterator).tokens,
        final(iterator).index == if old(iterator).index < old(iterator).tokens@.len() {
            old(iterator).index + 1
        } else {
            old(iterator).index as int
        },
        match r {
            Some(name) => old(iterator).index < old(iterator).tokens@.len() && (old(iterator).tokens@[old(iterator).index as int] matches TokenTree::Ident(found) && found@ == name@),
            None => old(iterator).index < old(iterator).tokens@.len() ==> !(old(iterator).tokens@[old(iterator).index as int] is Ident),
        },
{
    match iterator.next() {
        Some(TokenTree::Ident(identifier)) => Some(identifier.clone()),
        _ => None,
    }
}

/// The constructor of the integer that a decimal literal denotes.
pub fn map_integer(literal: &String) -> (r: String)
    requires
        parse_i32(literal@) is Some,
    ensures
        r@ == integer_text(parse_i32(literal@)->0),
{
    let number = i32_of(literal.as_str()).unwrap();
    let digits = text_of_i32(number);
    fill1(
        "algorithmify::expressions::Expression::Integer(algorithmify::expressions::Integer::I32(",
        digits.as_str(),
        "))",
    )
}

/// The constructor of what an identifier stands for as a value.
pub fn map_reference_expression(reference: &String) -> (r: String)
    ensures
        r@ == reference_expression_text(reference@),
{
    if is_text(reference, "true") {
        String::from_str("algorithmify::expressions::Expression::Bool(true)")
    } else if is_text(reference, "false") {
        String::from_str("algorithmify::expressions::Expression::Bool(false)")
    } else {
        let inner = map_reference(reference);
        fill1("algorithmify::expressions::Expression::Reference(", inner.as_str(), ")")
    }
}

/// The constructor of an indexed access as an expression.
pub fn map_indexed_reference_expression(reference: &String, index: String) -> (r: String)
    ensures
        r@ == indexed_reference_expression_text(reference@, index@),
{
    let inner = map_indexed_reference(reference, index);
    fill1("algorithmify::expressions::Expression::IndexedAccessExpression(", inner.as_str(), ")")
}

/// The constructor of a variable reference.
pub fn map_reference(reference: &String) -> (r: String)
    ensures
        r@ == reference_text(reference@),
{
    fill1(
        "algorithmify::expressions::Reference::Variable(\"",
        reference.as_str(),
        "\".to_owned())",
    )
}

/// The constructor of an indexed access.
pub fn map_indexed_reference(reference: &String, index: String) -> (r: String)
    ensures
        r@ == indexed_reference_text(reference@, index@),
{
    fill2(
        "algorithmify::expressions::IndexedAccessExpression{
            variable: \"",
        reference.as_str(),
        "\".to_owned(), 
            index: Box::new(",
        index.as_str(),
        ")
        }",
    )
}

} // verus!
