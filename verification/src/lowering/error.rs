//! The failures of a lowering, and how an attempt relates to the grammar.

use vstd::prelude::*;
use crate::lowering::grammar::{Diagnostic, Parsed};
use crate::lowering::token_iterator::TokenIterator;

verus! {

/// Why a lowering was given up. Malformed input is a mistake of the
/// programmer who wrote it: nothing is recovered from.
#[derive(Debug, PartialEq)]
pub enum LoweringError {
    /// No reading of a statement fits; these are the texts of the tokens at
    /// which it was to start, five at most.
    StatementNotRecognized(Vec<String>),
    /// In the attribute payload, a colon was expected at this position.
    ExpectedColon(usize),
    /// In the attribute payload, a braced group was expected at this position.
    ExpectedBracedGroup(usize),
    /// In a contract of the attribute payload, the name of a function was
    /// expected at this position.
    ExpectedFunctionName(usize),
    /// The item has no `fn` followed by a name.
    MissingFunctionName,
}

impl View for LoweringError {
    type V = Diagnostic;

    open spec fn view(&self) -> Diagnostic {
        match self {
            LoweringError::StatementNotRecognized(texts) => Diagnostic::StatementNotRecognized(
                Seq::new(texts@.len(), |i: int| texts@[i]@),
            ),
            LoweringError::ExpectedColon(at) => Diagnostic::ExpectedColon(*at as nat),
            LoweringError::ExpectedBracedGroup(at) => Diagnostic::ExpectedBracedGroup(*at as nat),
            LoweringError::ExpectedFunctionName(at) => Diagnostic::ExpectedFunctionName(*at as nat),
            LoweringError::MissingFunctionName => Diagnostic::MissingFunctionName,
        }
    }
}

/// An attempt has done what `parsed` says: where it reads, the result is
/// the expected one and the cursor has moved forward to the expected
/// position; where it does not, the cursor is where it was; where the input
/// is given up, the error is the expected one.
pub open spec fn yields<T: View>(
    before: TokenIterator,
    after: TokenIterator,
    result: Result<Option<T>, LoweringError>,
    parsed: Parsed<T::V>,
) -> bool {
    &&& after.tokens == before.tokens
    &&& match parsed {
        Parsed::Matched(expected, next) => before.index < next <= before.tokens@.len()
            && after.index == next && (result matches Ok(Some(found)) && found@ == expected),
        Parsed::Unmatched => after.index == before.index && (result matches Ok(found)
            && found is None),
        Parsed::Aborted(diagnostic) => result matches Err(error) && error@ == diagnostic,
    }
}

/// A run of folds has done what `parsed` says: the result is the expected
/// text and the cursor stands after the last fold, or the input is given up
/// with the expected error.
pub open spec fn folds(
    before: TokenIterator,
    after: TokenIterator,
    result: Result<String, LoweringError>,
    parsed: Parsed<Seq<char>>,
) -> bool {
    &&& after.tokens == before.tokens
    &&& match parsed {
        Parsed::Matched(expected, next) => before.index <= next <= before.tokens@.len()
            && after.index == next && (result matches Ok(found) && found@ == expected),
        Parsed::Unmatched => false,
        Parsed::Aborted(diagnostic) => result matches Err(error) && error@ == diagnostic,
    }
}

} // verus!
