//! Lowering of conditionals.

use vstd::prelude::*;
use crate::lowering::error::{LoweringError, yields};
use crate::lowering::expression_mapper::{ExpressionMapping, map_block, map_expression, map_statements};
use crate::lowering::grammar::{body, else_clause, if_condition, left, Parsed};
use crate::text::{fill1, fill3};
use crate::lowering::token_container::TokenTree;
use crate::lowering::token_iterator::TokenIterator;

verus! {

/// Maps the statements of the group under the cursor, whatever its
/// delimiter.
pub fn map_body(iterator: &mut TokenIterator) -> (r: Result<Option<String>, LoweringError>)
    ensures
        yields(
            *old(iterator),
            *final(iterator),
            r,
            body(old(iterator).tokens@, old(iterator).index as nat),
        ),
    decreases old(iterator).tokens@, left(old(iterator).tokens@, old(iterator).index as nat), 10nat, 0nat,
{
    let index = iterator.index;
    match iterator.next() {
        Some(TokenTree::Group(group)) => match map_statements(group) {
            Ok(statements) => Ok(Some(statements)),
            Err(error) => Err(error),
        },
        _ => {
            iterator.rewind_to(index);
            Ok(None)
        },
    }
}

/// Maps what follows the body of a conditional: an `else` with a block or
/// another conditional, or nothing.
fn map_else_clause(iterator: &mut TokenIterator) -> (r: Result<Option<String>, LoweringError>)
    requires
        old(iterator).index <= old(iterator).tokens@.len(),
    ensures
        final(iterator).tokens == old(iterator).tokens,
        match else_clause(old(iterator).tokens@, old(iterator).index as nat) {
            Parsed::Matched(expected, next) => old(iterator).index <= next <= old(iterator).tokens@.len() && final(iterator).index == next && (r matches Ok(Some(found))
                && found@ == expected),
            Parsed::Unmatched => r matches Ok(found) && found is None,
            Parsed::Aborted(diagnostic) => r matches Err(error) && error@ == diagnostic,
        },
    decreases old(iterator).tokens@, left(old(iterator).tokens@, old(iterator).index as nat), 33nat, 0nat,
{
    if iterator.try_get_next_token("else").is_some() {
        let clause = match map_block(iterator) {
            Err(error) => {
                return Err(error);
            },
            Ok(Some(clause)) => clause,
            Ok(None) => match map_if_condition(iterator) {
                Err(error) => {
                    return Err(error);
                },
                Ok(Some(clause)) => clause,
                Ok(None) => {
                    return Ok(None);
                },
            },
        };
        Ok(Some(fill1("Some(", clause.mapping.as_str(), ")")))
    } else {
        Ok(Some(String::from_str("None")))
    }
}

/// Maps `if CONDITION { STATEMENTS }` with its optional else clause.
pub fn map_if_condition(iterator: &mut TokenIterator) -> (r: Result<
    Option<ExpressionMapping>,
    LoweringError,
>)
    ensures
        yields(
            *old(iterator),
            *final(iterator),
            r,
            if_condition(old(iterator).tokens@, old(iterator).index as nat),
        ),
    decreases old(iterator).tokens@, left(old(iterator).tokens@, old(iterator).index as nat), 32nat, 0nat,
{
    let index = iterator.index;
    if iterator.try_get_next_token("if").is_none() {
        return Ok(None);
    }
    let condition = match map_expression(iterator) {
        Err(error) => {
            return Err(error);
        },
        Ok(None) => {
            iterator.rewind_to(index);
            return Ok(None);
        },
        Ok(Some(condition)) => condition.mapping,
    };
    let statements = match map_body(iterator) {
        Err(error) => {
            return Err(error);
        },
        Ok(None) => {
            iterator.rewind_to(index);
            return Ok(None);
        },
        Ok(Some(statements)) => statements,
    };
    let else_clause = match map_else_clause(iterator) {
        Err(error) => {
            return Err(error);
        },
        Ok(None) => {
            iterator.rewind_to(index);
            return Ok(None);
        },
        Ok(Some(clause)) => clause,
    };
    let mapping = fill3(
        "algorithmify::expressions::Expression::Condition(Box::new(algorithmify::expressions::conditions::Condition::If(algorithmify::expressions::conditions::If {
            statements: vec![",
        statements.as_str(),
        "],
            condition: ",
        condition.as_str(),
        ",
            else_clause: ",
        else_clause.as_str(),
        "
        }))),",
    );
    Ok(Some(ExpressionMapping { mapping, needs_semicolon_unless_final: false }))
}

} // verus!
