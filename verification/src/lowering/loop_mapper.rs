//! Lowering of loops and of their tags.

use vstd::prelude::*;
use vstd::string::StringExecFns;
use crate::lowering::condition_mapper::map_body;
use crate::lowering::error::{LoweringError, yields};
use crate::lowering::expression_mapper::{ExpressionMapping, map_expression, map_reference};
use crate::lowering::grammar::{after_tag, for_loop, left, tag, while_loop};
use crate::text::{fill1, fill3};
use crate::lowering::token_container::TokenTree;
use crate::lowering::token_iterator::TokenIterator;

verus! {

/// Maps `for [mut] NAME in START..END { STATEMENTS }` with its optional
/// tag.
pub fn map_for_loop(iterator: &mut TokenIterator) -> (r: Result<
    Option<ExpressionMapping>,
    LoweringError,
>)
    ensures
        yields(
            *old(iterator),
            *final(iterator),
            r,
            for_loop(old(iterator).tokens@, old(iterator).index as nat),
        ),
    decreases old(iterator).tokens@, left(old(iterator).tokens@, old(iterator).index as nat), 32nat, 0nat,
{
    let index = iterator.index;
    let tag = try_get_tag(iterator);
    if iterator.try_get_next_token("for").is_none() {
        iterator.rewind_to(index);
        return Ok(None);
    }
    iterator.try_get_next_token("mut");
    let variable = match iterator.next() {
        Some(TokenTree::Ident(variable)) => map_reference(variable),
        _ => {
            iterator.rewind_to(index);
            return Ok(None);
        },
    };
    if iterator.try_get_next_token("in").is_none() {
        iterator.rewind_to(index);
        return Ok(None);
    }
    let start = match map_expression(iterator) {
        Err(error) => {
            return Err(error);
        },
        Ok(None) => {
            iterator.rewind_to(index);
            return Ok(None);
        },
        Ok(Some(start)) => start.mapping,
    };
    if iterator.try_get_next_token(".").is_none() {
        iterator.rewind_to(index);
        return Ok(None);
    }
    if iterator.try_get_next_token(".").is_none() {
        iterator.rewind_to(index);
        return Ok(None);
    }
    let end = match map_expression(iterator) {
        Err(error) => {
            return Err(error);
        },
        Ok(None) => {
            iterator.rewind_to(index);
            return Ok(None);
        },
        Ok(Some(end)) => end.mapping,
    };
    let statements = match map_body(iterator) {
        Err(error) => {
            return Err(error);
        },
        Ok(None) => {
            iterator.rewind_to(index);
            return Ok(None);
        },
        Ok(Some(statements)) => statements,
    };
    let mut mapping = fill3(
        "algorithmify::expressions::Expression::Loop(Box::new(algorithmify::expressions::loops::Loop::RangedFor(algorithmify::expressions::loops::RangedForLoop {
            tag: ",
        tag.as_str(),
        ",
            statements: vec![",
        statements.as_str(),
        "],
            variable: ",
        variable.as_str(),
        ",
            start: ",
    );
    mapping.append(start.as_str());
    mapping.append(",
            end: ");
    mapping.append(end.as_str());
    mapping.append("
        }))),");
    Ok(Some(ExpressionMapping { mapping, needs_semicolon_unless_final: false }))
}

/// Maps `while CONDITION { STATEMENTS }` with its optional tag.
pub fn map_while_loop(iterator: &mut TokenIterator) -> (r: Result<
    Option<ExpressionMapping>,
    LoweringError,
>)
    ensures
        yields(
            *old(iterator),
            *final(iterator),
            r,
            while_loop(old(iterator).tokens@, old(iterator).index as nat),
        ),
    decreases old(iterator).tokens@, left(old(iterator).tokens@, old(iterator).index as nat), 32nat, 0nat,
{
    let index = iterator.index;
    let tag = try_get_tag(iterator);
    if iterator.try_get_next_token("while").is_none() {
        iterator.rewind_to(index);
        return Ok(None);
    }
    let condition = match map_expression(iterator) {
        Err(error) => {
            return Err(error);
        },
        Ok(None) => {
            iterator.rewind_to(index);
            return Ok(None);
        },
        Ok(Some(condition)) => condition.mapping,
    };
    let statements = match map_body(iterator) {
        Err(error) => {
            return Err(error);
        },
        Ok(None) => {
            iterator.rewind_to(index);
            return Ok(None);
        },
        Ok(Some(statements)) => statements,
    };
    let mapping = fill3(
        "algorithmify::expressions::Expression::Loop(Box::new(algorithmify::expressions::loops::Loop::While(algorithmify::expressions::loops::WhileLoop {
            tag: ",
        tag.as_str(),
        ",
            statements: vec![",
        statements.as_str(),
        "],
            condition: ",
        condition.as_str(),
        ",
        }))),",
    );
    Ok(Some(ExpressionMapping { mapping, needs_semicolon_unless_final: false }))
}

/// Reads a loop tag, an apostrophe, an identifier and a colon, where one
/// stands under the cursor, and gives the constructor of the tag or of no
/// tag.
pub fn try_get_tag(iterator: &mut TokenIterator) -> (r: String)
    ensures
        final(iterator).tokens == old(iterator).tokens,
        r@ == tag(old(iterator).tokens@, old(iterator).index as nat),
        final(iterator).index == after_tag(old(iterator).tokens@, old(iterator).index as nat),
{
    let index = iterator.index;
    let first = iterator.next();
    let second = iterator.next();
    let third = iterator.next();
    match (first, second, third) {
        (
            Some(TokenTree::Punct(apostrophe)),
            Some(TokenTree::Ident(identifier)),
            Some(TokenTree::Punct(colon)),
        ) => {
            if *apostrophe == '\'' && *colon == ':' {
                return fill1("Some(\"", identifier.as_str(), "\".to_owned())");
            }
        },
        _ => {},
    }
    iterator.rewind_to(index);
    String::from_str("None")
}

} // verus!
