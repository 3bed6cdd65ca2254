//! Lowering of statements.

use vstd::prelude::*;
use crate::lowering::error::{LoweringError, yields};
use crate::lowering::expression_mapper::{map_expression, map_reference, try_get_indexed_access};
use crate::lowering::grammar::{
    Diagnostic,
    Parsed,
    StatementAlternative,
    assignment,
    expression_statement,
    indexed_assignment,
    left,
    statement,
    statement_alternative,
    upcoming,
};
use crate::text::{fill1, fill2};
use crate::lowering::token_container::TokenTree;
use crate::lowering::token_iterator::TokenIterator;

verus! {

/// The constructor text of a statement.
#[derive(Debug, PartialEq)]
pub struct StatementMapping {
    pub mapping: String,
}

impl View for StatementMapping {
    type V = Seq<char>;

    open spec fn view(&self) -> Seq<char> {
        self.mapping@
    }
}

/// Maps the statement under the cursor and adds its constructor, followed
/// by a comma, to `buffer`. Where no reading of a statement fits, the input
/// is given up.
pub fn map_statement(buffer: &mut String, iterator: &mut TokenIterator) -> (r: Result<
    (),
    LoweringError,
>)
    requires
        old(iterator).index < old(iterator).tokens@.len(),
    ensures
        final(iterator).tokens == old(iterator).tokens,
        match statement(old(iterator).tokens@, old(iterator).index as nat) {
            Parsed::Matched(text, next) => r is Ok && final(buffer)@ == old(buffer)@ + text + ","@
                && old(iterator).index < next <= old(iterator).tokens@.len() && final(iterator).index == next,
            Parsed::Unmatched => false,
            Parsed::Aborted(diagnostic) => r matches Err(error) && error@ == diagnostic,
        },
    decreases old(iterator).tokens@, left(old(iterator).tokens@, old(iterator).index as nat), 39nat, 0nat,
{
    let mut result = match execute_assignment_mapping(iterator, StatementAlternative::Assignment) {
        Err(error) => {
            return Err(error);
        },
        Ok(result) => result,
    };
    if result.is_none() {
        result = match execute_assignment_mapping(iterator, StatementAlternative::IndexedAssignment) {
            Err(error) => {
                return Err(error);
            },
            Ok(result) => result,
        };
    }
    if result.is_none() {
        result = match execute_assignment_mapping(iterator, StatementAlternative::Expression) {
            Err(error) => {
                return Err(error);
            },
            Ok(result) => result,
        };
    }
    match result {
        Some(result) => {
            buffer.append(result.mapping.as_str());
            buffer.append(",");
            Ok(())
        },
        None => Err(not_recognized(iterator)),
    }
}

/// The error for a statement that no reading fits: it holds the texts of
/// the tokens under the cursor, five at most.
fn not_recognized(iterator: &mut TokenIterator) -> (r: LoweringError)
    requires
        old(iterator).index < old(iterator).tokens@.len(),
    ensures
        final(iterator).tokens == old(iterator).tokens,
        r@ == Diagnostic::StatementNotRecognized(upcoming(old(iterator).tokens@, old(iterator).index as nat)),
{
    let tokens = iterator.next_nth(5).unwrap();
    let mut reps: Vec<String> = Vec::new();
    let mut i: usize = 0;
    while i < tokens.len()
        invariant
            i <= tokens@.len(),
            reps@.len() == i,
            forall|j: int| 0 <= j < i ==> (#[trigger] reps@[j])@ == tokens@[j].text(),
        decreases tokens@.len() - i,
    {
        reps.push(tokens[i].to_text());
        i += 1;
    }
    let error = LoweringError::StatementNotRecognized(reps);
    assert(error@->StatementNotRecognized_0 =~= upcoming(old(iterator).tokens@, old(iterator).index as nat));
    error
}

/// Tries one reading of a statement; the cursor goes back where it does
/// not fit.
pub fn execute_assignment_mapping(iterator: &mut TokenIterator, mapping: StatementAlternative) -> (r:
    Result<Option<StatementMapping>, LoweringError>)
    ensures
        yields(
            *old(iterator),
            *final(iterator),
            r,
            statement_alternative(mapping, old(iterator).tokens@, old(iterator).index as nat),
        ),
    decreases old(iterator).tokens@, left(old(iterator).tokens@, old(iterator).index as nat), 38nat, 0nat,
{
    let index = iterator.index;
    let result = match mapping {
        StatementAlternative::Assignment => try_map_assignment(iterator),
        StatementAlternative::IndexedAssignment => try_map_indexed_assignment(iterator),
        StatementAlternative::Expression => try_map_expression(iterator),
    };
    match result {
        Ok(None) => {
            iterator.rewind_to(index);
            Ok(None)
        },
        other => other,
    }
}

/// Maps `[let] [mut] NAME = EXPRESSION;`.
pub fn try_map_assignment(iterator: &mut TokenIterator) -> (r: Result<
    Option<StatementMapping>,
    LoweringError,
>)
    ensures
        yields(
            *old(iterator),
            *final(iterator),
            r,
            assignment(old(iterator).tokens@, old(iterator).index as nat),
        ),
    decreases old(iterator).tokens@, left(old(iterator).tokens@, old(iterator).index as nat), 37nat, 0nat,
{
    let index = iterator.index;
    iterator.try_get_next_token("let");
    iterator.try_get_next_token("mut");
    let identifier = match iterator.next() {
        Some(TokenTree::Ident(ident)) => map_reference(ident),
        _ => {
            iterator.rewind_to(index);
            return Ok(None);
        },
    };
    if iterator.try_get_next_token("=").is_none() {
        iterator.rewind_to(index);
        return Ok(None);
    }
    let expression = match map_expression(iterator) {
        Err(error) => {
            return Err(error);
        },
        Ok(None) => {
            iterator.rewind_to(index);
            return Ok(None);
        },
        Ok(Some(expression)) => expression,
    };
    if iterator.try_get_next_token(";").is_none() {
        iterator.rewind_to(index);
        return Ok(None);
    }
    let mapping = fill2(
        "algorithmify::expressions::Statement::Assignment(",
        identifier.as_str(),
        ", ",
        expression.mapping.as_str(),
        ")",
    );
    Ok(Some(StatementMapping { mapping }))
}

/// Maps `[let] [mut] NAME[INDEX] = EXPRESSION;`.
pub fn try_map_indexed_assignment(iterator: &mut TokenIterator) -> (r: Result<
    Option<StatementMapping>,
    LoweringError,
>)
    ensures
        yields(
            *old(iterator),
            *final(iterator),
            r,
            indexed_assignment(old(iterator).tokens@, old(iterator).index as nat),
        ),
    decreases old(iterator).tokens@, left(old(iterator).tokens@, old(iterator).index as nat), 37nat, 0nat,
{
    let index = iterator.index;
    iterator.try_get_next_token("let");
    iterator.try_get_next_token("mut");
    let identifier = match try_get_indexed_access(iterator) {
        Err(error) => {
            return Err(error);
        },
        Ok(None) => {
            iterator.rewind_to(index);
            return Ok(None);
        },
        Ok(Some(identifier)) => identifier,
    };
    if iterator.try_get_next_token("=").is_none() {
        iterator.rewind_to(index);
        return Ok(None);
    }
    let expression = match map_expression(iterator) {
        Err(error) => {
            return Err(error);
        },
        Ok(None) => {
            iterator.rewind_to(index);
            return Ok(None);
        },
        Ok(Some(expression)) => expression,
    };
    if iterator.try_get_next_token(";").is_none() {
        iterator.rewind_to(index);
        return Ok(None);
    }
    let mapping = fill2(
        "algorithmify::expressions::Statement::IndexedAssigment(",
        identifier.as_str(),
        ", ",
        expression.mapping.as_str(),
        ")",
    );
    Ok(Some(StatementMapping { mapping }))
}

/// Maps an expression as a statement. A semicolon after it is taken;
/// without one, the expression must be the last thing or of a kind that
/// needs no semicolon.
pub fn try_map_expression(iterator: &mut TokenIterator) -> (r: Result<
    Option<StatementMapping>,
    LoweringError,
>)
    ensures
        yields(
            *old(iterator),
            *final(iterator),
            r,
            expression_statement(old(iterator).tokens@, old(iterator).index as nat),
        ),
    decreases old(iterator).tokens@, left(old(iterator).tokens@, old(iterator).index as nat), 37nat, 0nat,
{
    let index = iterator.index;
    let expression = match map_expression(iterator) {
        Err(error) => {
            return Err(error);
        },
        Ok(None) => {
            return Ok(None);
        },
        Ok(Some(expression)) => expression,
    };
    let semicolon = iterator.try_get_next_token(";").is_some();
    if semicolon || iterator.peek().is_none() || !expression.needs_semicolon_unless_final {
        let mapping = fill1(
            "algorithmify::expressions::Statement::Expression(",
            expression.mapping.as_str(),
            ")",
        );
        Ok(Some(StatementMapping { mapping }))
    } else {
        iterator.rewind_to(index);
        Ok(None)
    }
}

} // verus!
