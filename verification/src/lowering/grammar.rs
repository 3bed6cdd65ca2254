//! The grammar of the subset of host syntax that is lowered, as functions
//! from tokens and a position to what is read there and to the constructor
//! text that it lowers to.

use vstd::prelude::*;
use crate::lowering::numbers::{decimal, digits_of, parse_i32, parse_usize};
use crate::lowering::token_container::{Delimiter, TokenTree};
use crate::lowering::token_iterator::{is_token, joined};

verus! {

/// Why a lowering was given up: the input is no function of the subset.
pub enum Diagnostic {
    /// No reading of a statement fits; these are the texts of the tokens at
    /// which it was to start, five at most.
    StatementNotRecognized(Seq<Seq<char>>),
    /// In the attribute payload, a colon was expected at this position.
    ExpectedColon(nat),
    /// In the attribute payload, a braced group was expected at this position.
    ExpectedBracedGroup(nat),
    /// In a contract of the attribute payload, the name of a function was
    /// expected at this position.
    ExpectedFunctionName(nat),
    /// The item has no `fn` followed by a name.
    MissingFunctionName,
}

/// What one attempt to read something at a position gives.
pub enum Parsed<T> {
    /// It reads as this, and the cursor goes on at the position.
    Matched(T, nat),
    /// It does not read as this; other readings may be tried from the same
    /// position.
    Unmatched,
    /// The input is beyond repair.
    Aborted(Diagnostic),
}

/// The constructor text of an expression, and whether a statement made of it
/// needs a semicolon unless it is the last one.
pub struct Mapping {
    pub text: Seq<char>,
    pub needs_semicolon_unless_final: bool,
}

/// The readings of an expression, in the order in which they are tried.
#[derive(Debug, Clone, Copy, PartialEq, Eq)]
pub enum Alternative {
    FunctionCall,
    VecShorthand,
    VecSequence,
    IfCondition,
    Block,
    ForLoop,
    WhileLoop,
    SimpleExpression,
}

/// The readings of a statement, in the order in which they are tried.
#[derive(Debug, Clone, Copy, PartialEq, Eq)]
pub enum StatementAlternative {
    Assignment,
    IndexedAssignment,
    Expression,
}

/// The number of tokens from `pos` on.
pub open spec fn left(tokens: Seq<TokenTree>, pos: nat) -> nat {
    if pos <= tokens.len() {
        (tokens.len() - pos) as nat
    } else {
        0
    }
}

/// A reading that does not move the cursor forward, within the tokens, is no
/// reading.
pub open spec fn advanced<T>(tokens: Seq<TokenTree>, pos: nat, parsed: Parsed<T>) -> Parsed<T> {
    match parsed {
        Parsed::Matched(found, next) => if pos < next <= tokens.len() {
            parsed
        } else {
            Parsed::Unmatched
        },
        _ => parsed,
    }
}

/// The position after an optional token.
pub open spec fn skip(tokens: Seq<TokenTree>, pos: nat, text: Seq<char>) -> nat {
    if is_token(tokens, pos, text) {
        pos + 1
    } else {
        pos
    }
}

/// The constructor of a binary operation.
pub open spec fn operation_text(name: Seq<char>, lhs: Seq<char>, rhs: Seq<char>) -> Seq<char> {
    "algorithmify::expressions::Expression::Operation(Box::new(algorithmify::expressions::Operation::"@
        + name + "("@ + lhs + ", "@ + rhs + ")))"@
}

/// The constructor of a variable reference.
pub open spec fn reference_text(name: Seq<char>) -> Seq<char> {
    "algorithmify::expressions::Reference::Variable(\""@ + name + "\".to_owned())"@
}

/// The constructor of what an identifier stands for as a value: one of the
/// two boolean literals, or a reference to a variable.
pub open spec fn reference_expression_text(name: Seq<char>) -> Seq<char> {
    if name == "true"@ {
        "algorithmify::expressions::Expression::Bool(true)"@
    } else if name == "false"@ {
        "algorithmify::expressions::Expression::Bool(false)"@
    } else {
        "algorithmify::expressions::Expression::Reference("@ + reference_text(name) + ")"@
    }
}

/// The constructor of an integer literal.
pub open spec fn integer_text(value: i32) -> Seq<char> {
    "algorithmify::expressions::Expression::Integer(algorithmify::expressions::Integer::I32("@
        + decimal(value as int) + "))"@
}

/// The constructor of an indexed access.
pub open spec fn indexed_reference_text(name: Seq<char>, index: Seq<char>) -> Seq<char> {
    "algorithmify::expressions::IndexedAccessExpression{
            variable: \""@ + name + "\".to_owned(), 
            index: Box::new("@ + index + ")
        }"@
}

/// The constructor of an indexed access as an expression.
pub open spec fn indexed_reference_expression_text(name: Seq<char>, index: Seq<char>) -> Seq<char> {
    "algorithmify::expressions::Expression::IndexedAccessExpression("@ + indexed_reference_text(
        name,
        index,
    ) + ")"@
}

/// The constructor of a block expression.
pub open spec fn block_text(statements: Seq<char>) -> Seq<char> {
    "algorithmify::expressions::Expression::Block(Box::new(algorithmify::expressions::block::Block {
                    statements: vec!["@ + statements + "],
                })),"@
}

/// The constructor of a vector of `repetitions` copies of one element.
pub open spec fn vec_shorthand_text(element: Seq<char>, repetitions: usize) -> Seq<char> {
    "algorithmify::expressions::Expression::Vector(vec!["@ + element + ";"@ + digits_of(
        repetitions as nat,
    ) + "])"@
}

/// The constructor of a vector of the listed elements.
pub open spec fn vec_sequence_text(elements: Seq<char>) -> Seq<char> {
    "algorithmify::expressions::Expression::Vector(vec!["@ + elements + "])"@
}

/// The constructor of a call of the function with this name.
pub open spec fn function_call_text(name: Seq<char>, params: Seq<char>) -> Seq<char> {
    "algorithmify::expressions::Expression::FunctionCall(algorithmify::expressions::FunctionCall{
                    builder: algorithmify::expressions::FunctionBuilder::new("@ + name
        + "__function_builder()), 
                    params: vec!["@ + params + "]
                })"@
}

/// The constructor of a conditional.
pub open spec fn if_text(statements: Seq<char>, condition: Seq<char>, else_clause: Seq<char>) -> Seq<
    char,
> {
    "algorithmify::expressions::Expression::Condition(Box::new(algorithmify::expressions::conditions::Condition::If(algorithmify::expressions::conditions::If {
            statements: vec!["@ + statements + "],
            condition: "@ + condition + ",
            else_clause: "@ + else_clause + "
        }))),"@
}

/// The constructor of an else clause.
pub open spec fn else_text(clause: Seq<char>) -> Seq<char> {
    "Some("@ + clause + ")"@
}

/// The constructor of a loop tag.
pub open spec fn tag_text(name: Seq<char>) -> Seq<char> {
    "Some(\""@ + name + "\".to_owned())"@
}

/// The constructor of a ranged for loop.
pub open spec fn for_text(
    tag: Seq<char>,
    statements: Seq<char>,
    variable: Seq<char>,
    start: Seq<char>,
    end: Seq<char>,
) -> Seq<char> {
    "algorithmify::expressions::Expression::Loop(Box::new(algorithmify::expressions::loops::Loop::RangedFor(algorithmify::expressions::loops::RangedForLoop {
            tag: "@ + tag + ",
            statements: vec!["@ + statements + "],
            variable: "@ + variable + ",
            start: "@ + start + ",
            end: "@ + end + "
        }))),"@
}

/// The constructor of a while loop.
pub open spec fn while_text(tag: Seq<char>, statements: Seq<char>, condition: Seq<char>) -> Seq<char> {
    "algorithmify::expressions::Expression::Loop(Box::new(algorithmify::expressions::loops::Loop::While(algorithmify::expressions::loops::WhileLoop {
            tag: "@ + tag + ",
            statements: vec!["@ + statements + "],
            condition: "@ + condition + ",
        }))),"@
}

/// The constructor of an assignment statement.
pub open spec fn assignment_text(reference: Seq<char>, expression: Seq<char>) -> Seq<char> {
    "algorithmify::expressions::Statement::Assignment("@ + reference + ", "@ + expression + ")"@
}

/// The constructor of an indexed assignment statement.
pub open spec fn indexed_assignment_text(access: Seq<char>, expression: Seq<char>) -> Seq<char> {
    "algorithmify::expressions::Statement::IndexedAssigment("@ + access + ", "@ + expression + ")"@
}

/// The constructor of an expression statement.
pub open spec fn expression_statement_text(expression: Seq<char>) -> Seq<char> {
    "algorithmify::expressions::Statement::Expression("@ + expression + ")"@
}

/// What a first-tier operator makes of two operands, where it is one.
pub open spec fn first_tier_fold(operator: Seq<char>, lhs: Seq<char>, rhs: Seq<char>) -> Option<
    Seq<char>,
> {
    if operator == "*"@ {
        Some(operation_text("Mul"@, lhs, rhs))
    } else if operator == "/"@ {
        Some(operation_text("Div"@, lhs, rhs))
    } else if operator == "&"@ {
        Some(operation_text("BitAnd"@, lhs, rhs))
    } else if operator == "|"@ {
        Some(operation_text("BitOr"@, lhs, rhs))
    } else {
        None
    }
}

/// What a second-tier operator makes of two operands, where it is one.
pub open spec fn second_tier_fold(operator: Seq<char>, lhs: Seq<char>, rhs: Seq<char>) -> Option<
    Seq<char>,
> {
    if operator == "+"@ {
        Some(operation_text("Add"@, lhs, rhs))
    } else if operator == "-"@ {
        Some(operation_text("Sub"@, lhs, rhs))
    } else {
        None
    }
}

/// What a comparison operator of two characters makes of two operands, where
/// it is one.
pub open spec fn third_tier_double_fold(operator: Seq<char>, lhs: Seq<char>, rhs: Seq<char>) -> Option<
    Seq<char>,
> {
    if operator == "=="@ {
        Some(operation_text("Eq"@, lhs, rhs))
    } else if operator == "!="@ {
        Some(operation_text("Ne"@, lhs, rhs))
    } else if operator == ">="@ {
        Some(operation_text("Gte"@, lhs, rhs))
    } else if operator == "<="@ {
        Some(operation_text("Lte"@, lhs, rhs))
    } else {
        None
    }
}

/// What a comparison operator of one character makes of two operands, where
/// it is one.
pub open spec fn third_tier_single_fold(operator: Seq<char>, lhs: Seq<char>, rhs: Seq<char>) -> Option<
    Seq<char>,
> {
    if operator == ">"@ {
        Some(operation_text("Gt"@, lhs, rhs))
    } else if operator == "<"@ {
        Some(operation_text("Lt"@, lhs, rhs))
    } else {
        None
    }
}

/// What a logical operator makes of two operands, where it is one.
pub open spec fn fourth_tier_fold(operator: Seq<char>, lhs: Seq<char>, rhs: Seq<char>) -> Option<
    Seq<char>,
> {
    if operator == "&&"@ {
        Some(operation_text("And"@, lhs, rhs))
    } else if operator == "||"@ {
        Some(operation_text("Or"@, lhs, rhs))
    } else {
        None
    }
}

/// `NAME[INDEX]`: an identifier and a bracketed group whose tokens read as
/// one expression, all of them. `wrapped` says whether the access stands as
/// an expression.
pub open spec fn indexed_access(tokens: Seq<TokenTree>, pos: nat, wrapped: bool) -> Parsed<Seq<char>>
    decreases tokens, left(tokens, pos), 18nat, 0nat,
{
    if pos + 1 < tokens.len() {
        match (tokens[pos as int], tokens[(pos + 1) as int]) {
            (TokenTree::Ident(name), TokenTree::Group(group)) => if group.delimiter
                == Delimiter::Bracket {
                match advanced(group.stream@, 0, expression(group.stream@, 0)) {
                    Parsed::Matched(index, next) => if next >= group.stream@.len() {
                        Parsed::Matched(
                            if wrapped {
                                indexed_reference_expression_text(name@, index.text)
                            } else {
                                indexed_reference_text(name@, index.text)
                            },
                            pos + 2,
                        )
                    } else {
                        Parsed::Unmatched
                    },
                    Parsed::Unmatched => Parsed::Unmatched,
                    Parsed::Aborted(diagnostic) => Parsed::Aborted(diagnostic),
                }
            } else {
                Parsed::Unmatched
            },
            _ => Parsed::Unmatched,
        }
    } else {
        Parsed::Unmatched
    }
}

/// A value: an indexed access, an identifier, a decimal integer literal, or
/// a parenthesised group whose tokens read as one expression, all of them.
pub open spec fn value(tokens: Seq<TokenTree>, pos: nat) -> Parsed<Seq<char>>
    decreases tokens, left(tokens, pos), 20nat, 0nat,
{
    match indexed_access(tokens, pos, true) {
        Parsed::Matched(text, next) => Parsed::Matched(text, next),
        Parsed::Aborted(diagnostic) => Parsed::Aborted(diagnostic),
        Parsed::Unmatched => if pos >= tokens.len() {
            Parsed::Unmatched
        } else {
            match tokens[pos as int] {
                TokenTree::Ident(name) => Parsed::Matched(reference_expression_text(name@), pos + 1),
                TokenTree::Literal(text) => match parse_i32(text@) {
                    Some(number) => Parsed::Matched(integer_text(number), pos + 1),
                    None => Parsed::Unmatched,
                },
                TokenTree::Group(group) => if group.delimiter == Delimiter::Parenthesis {
                    match advanced(group.stream@, 0, expression(group.stream@, 0)) {
                        Parsed::Matched(inner, next) => if next >= group.stream@.len() {
                            Parsed::Matched(inner.text, pos + 1)
                        } else {
                            Parsed::Unmatched
                        },
                        Parsed::Unmatched => Parsed::Unmatched,
                        Parsed::Aborted(diagnostic) => Parsed::Aborted(diagnostic),
                    }
                } else {
                    Parsed::Unmatched
                },
                TokenTree::Punct(_) => Parsed::Unmatched,
            }
        },
    }
}

/// The folds of the first tier after a left operand: an operator token and a value, again and again. The right operand is read before the operator is looked at; where either does not fit, the cursor stays after the last fold.
pub open spec fn first_tier_rest(tokens: Seq<TokenTree>, pos: nat, lhs: Seq<char>) -> Parsed<Seq<char>>
    decreases tokens, left(tokens, pos), 21nat, 0nat,
{
    if pos >= tokens.len() {
        Parsed::Matched(lhs, pos)
    } else {
        let operator = tokens[pos as int].text();
        match advanced(tokens, pos + 1, value(tokens, pos + 1)) {
            Parsed::Aborted(diagnostic) => Parsed::Aborted(diagnostic),
            Parsed::Unmatched => Parsed::Matched(lhs, pos),
            Parsed::Matched(rhs, next) => match first_tier_fold(operator, lhs, rhs) {
                Some(folded) => first_tier_rest(tokens, next, folded),
                None => Parsed::Matched(lhs, pos),
            },
        }
    }
}

/// The first tier: values joined by `*`, `/`, `&` and `|`, folded from the left.
pub open spec fn first_tier(tokens: Seq<TokenTree>, pos: nat) -> Parsed<Seq<char>>
    decreases tokens, left(tokens, pos), 22nat, 0nat,
{
    match advanced(tokens, pos, value(tokens, pos)) {
        Parsed::Matched(lhs, next) => first_tier_rest(tokens, next, lhs),
        Parsed::Unmatched => Parsed::Unmatched,
        Parsed::Aborted(diagnostic) => Parsed::Aborted(diagnostic),
    }
}

/// The folds of the second tier after a left operand.
pub open spec fn second_tier_rest(tokens: Seq<TokenTree>, pos: nat, lhs: Seq<char>) -> Parsed<Seq<char>>
    decreases tokens, left(tokens, pos), 23nat, 0nat,
{
    if pos >= tokens.len() {
        Parsed::Matched(lhs, pos)
    } else {
        let operator = tokens[pos as int].text();
        match advanced(tokens, pos + 1, first_tier(tokens, pos + 1)) {
            Parsed::Aborted(diagnostic) => Parsed::Aborted(diagnostic),
            Parsed::Unmatched => Parsed::Matched(lhs, pos),
            Parsed::Matched(rhs, next) => match second_tier_fold(operator, lhs, rhs) {
                Some(folded) => second_tier_rest(tokens, next, folded),
                None => Parsed::Matched(lhs, pos),
            },
        }
    }
}

/// The second tier: first-tier expressions joined by `+` and `-`, folded from the left.
pub open spec fn second_tier(tokens: Seq<TokenTree>, pos: nat) -> Parsed<Seq<char>>
    decreases tokens, left(tokens, pos), 24nat, 0nat,
{
    match advanced(tokens, pos, first_tier(tokens, pos)) {
        Parsed::Matched(lhs, next) => second_tier_rest(tokens, next, lhs),
        Parsed::Unmatched => Parsed::Unmatched,
        Parsed::Aborted(diagnostic) => Parsed::Aborted(diagnostic),
    }
}

/// The folds of the third tier with the operators of two characters, after a left operand. An operator is read only where a token follows it.
pub open spec fn third_tier_double(tokens: Seq<TokenTree>, pos: nat, lhs: Seq<char>) -> Parsed<Seq<char>>
    decreases tokens, left(tokens, pos), 25nat, 0nat,
{
    match joined(tokens, pos, 2) {
        None => Parsed::Matched(lhs, pos),
        Some(operator) => match advanced(tokens, pos + 2, second_tier(tokens, pos + 2)) {
            Parsed::Aborted(diagnostic) => Parsed::Aborted(diagnostic),
            Parsed::Unmatched => Parsed::Matched(lhs, pos),
            Parsed::Matched(rhs, next) => match third_tier_double_fold(operator, lhs, rhs) {
                Some(folded) => third_tier_double(tokens, next, folded),
                None => Parsed::Matched(lhs, pos),
            },
        },
    }
}

/// The folds of the third tier with the operators of one character, after a left operand; the right operand is a whole third-tier expression.
pub open spec fn third_tier_single(tokens: Seq<TokenTree>, pos: nat, lhs: Seq<char>) -> Parsed<Seq<char>>
    decreases tokens, left(tokens, pos), 26nat, 0nat,
{
    if pos >= tokens.len() {
        Parsed::Matched(lhs, pos)
    } else {
        let operator = tokens[pos as int].text();
        match advanced(tokens, pos + 1, third_tier(tokens, pos + 1)) {
            Parsed::Aborted(diagnostic) => Parsed::Aborted(diagnostic),
            Parsed::Unmatched => Parsed::Matched(lhs, pos),
            Parsed::Matched(rhs, next) => match third_tier_single_fold(operator, lhs, rhs) {
                Some(folded) => third_tier_single(tokens, next, folded),
                None => Parsed::Matched(lhs, pos),
            },
        }
    }
}

/// The third tier: second-tier expressions joined by comparisons, those of
/// two characters before those of one.
pub open spec fn third_tier(tokens: Seq<TokenTree>, pos: nat) -> Parsed<Seq<char>>
    decreases tokens, left(tokens, pos), 28nat, 0nat,
{
    match advanced(tokens, pos, second_tier(tokens, pos)) {
        Parsed::Matched(lhs, next) => match third_tier_double(tokens, next, lhs) {
            Parsed::Matched(folded, after) => if next <= after <= tokens.len() {
                third_tier_single(tokens, after, folded)
            } else {
                Parsed::Unmatched
            },
            Parsed::Unmatched => Parsed::Unmatched,
            Parsed::Aborted(diagnostic) => Parsed::Aborted(diagnostic),
        },
        Parsed::Unmatched => Parsed::Unmatched,
        Parsed::Aborted(diagnostic) => Parsed::Aborted(diagnostic),
    }
}

/// The folds of the fourth tier after a left operand.
pub open spec fn fourth_tier_rest(tokens: Seq<TokenTree>, pos: nat, lhs: Seq<char>) -> Parsed<Seq<char>>
    decreases tokens, left(tokens, pos), 29nat, 0nat,
{
    match joined(tokens, pos, 2) {
        None => Parsed::Matched(lhs, pos),
        Some(operator) => match advanced(tokens, pos + 2, third_tier(tokens, pos + 2)) {
            Parsed::Aborted(diagnostic) => Parsed::Aborted(diagnostic),
            Parsed::Unmatched => Parsed::Matched(lhs, pos),
            Parsed::Matched(rhs, next) => match fourth_tier_fold(operator, lhs, rhs) {
                Some(folded) => fourth_tier_rest(tokens, next, folded),
                None => Parsed::Matched(lhs, pos),
            },
        },
    }
}

/// The fourth tier: third-tier expressions joined by `&&` and `||`, folded from the left.
pub open spec fn fourth_tier(tokens: Seq<TokenTree>, pos: nat) -> Parsed<Seq<char>>
    decreases tokens, left(tokens, pos), 30nat, 0nat,
{
    match advanced(tokens, pos, third_tier(tokens, pos)) {
        Parsed::Matched(lhs, next) => fourth_tier_rest(tokens, next, lhs),
        Parsed::Unmatched => Parsed::Unmatched,
        Parsed::Aborted(diagnostic) => Parsed::Aborted(diagnostic),
    }
}

/// An expression built from operators alone.
pub open spec fn simple_expression(tokens: Seq<TokenTree>, pos: nat) -> Parsed<Mapping>
    decreases tokens, left(tokens, pos), 31nat, 0nat,
{
    match fourth_tier(tokens, pos) {
        Parsed::Matched(text, next) => Parsed::Matched(
            Mapping { text, needs_semicolon_unless_final: true },
            next,
        ),
        Parsed::Unmatched => Parsed::Unmatched,
        Parsed::Aborted(diagnostic) => Parsed::Aborted(diagnostic),
    }
}

/// Expressions one after the other, each followed by an optional comma, as
/// far as they go; `gathered` holds the constructors so far, each followed
/// by a comma.
pub open spec fn listed(tokens: Seq<TokenTree>, pos: nat, gathered: Seq<char>) -> Parsed<Seq<char>>
    decreases tokens, left(tokens, pos), 36nat, 0nat,
{
    match advanced(tokens, pos, expression(tokens, pos)) {
        Parsed::Matched(item, next) => listed(
            tokens,
            skip(tokens, next, ","@),
            gathered + item.text + ","@,
        ),
        Parsed::Unmatched => Parsed::Matched(gathered, pos),
        Parsed::Aborted(diagnostic) => Parsed::Aborted(diagnostic),
    }
}

/// `NAME(ARGUMENTS)`: an identifier and a parenthesised group, whose tokens
/// are read as a list as far as they go.
pub open spec fn function_call(tokens: Seq<TokenTree>, pos: nat) -> Parsed<Mapping>
    decreases tokens, left(tokens, pos), 32nat, 0nat,
{
    if pos + 1 < tokens.len() {
        match (tokens[pos as int], tokens[(pos + 1) as int]) {
            (TokenTree::Ident(name), TokenTree::Group(group)) => if group.delimiter
                == Delimiter::Parenthesis {
                match listed(group.stream@, 0, Seq::empty()) {
                    Parsed::Matched(params, _) => Parsed::Matched(
                        Mapping {
                            text: function_call_text(name@, params),
                            needs_semicolon_unless_final: true,
                        },
                        pos + 2,
                    ),
                    Parsed::Unmatched => Parsed::Unmatched,
                    Parsed::Aborted(diagnostic) => Parsed::Aborted(diagnostic),
                }
            } else {
                Parsed::Unmatched
            },
            _ => Parsed::Unmatched,
        }
    } else {
        Parsed::Unmatched
    }
}

/// Whether `vec`, `!` and a bracketed group stand at `pos`.
pub open spec fn is_vec(tokens: Seq<TokenTree>, pos: nat) -> bool {
    &&& is_token(tokens, pos, "vec"@)
    &&& is_token(tokens, pos + 1, "!"@)
    &&& pos + 2 < tokens.len()
    &&& tokens[(pos + 2) as int] matches TokenTree::Group(group) && group.delimiter
        == Delimiter::Bracket
}

/// `vec![ELEMENT; COUNT]`: one expression, a semicolon and a decimal
/// literal, and nothing after it.
pub open spec fn vec_shorthand(tokens: Seq<TokenTree>, pos: nat) -> Parsed<Mapping>
    decreases tokens, left(tokens, pos), 32nat, 0nat,
{
    if is_vec(tokens, pos) {
        let inner = tokens[(pos + 2) as int]->Group_0.stream@;
        match advanced(inner, 0, expression(inner, 0)) {
            Parsed::Matched(element, next) => if is_token(inner, next, ";"@) && next + 2
                == inner.len() {
                match inner[(next + 1) as int] {
                    TokenTree::Literal(text) => match parse_usize(text@) {
                        Some(repetitions) => Parsed::Matched(
                            Mapping {
                                text: vec_shorthand_text(element.text, repetitions),
                                needs_semicolon_unless_final: false,
                            },
                            pos + 3,
                        ),
                        None => Parsed::Unmatched,
                    },
                    _ => Parsed::Unmatched,
                }
            } else {
                Parsed::Unmatched
            },
            Parsed::Unmatched => Parsed::Unmatched,
            Parsed::Aborted(diagnostic) => Parsed::Aborted(diagnostic),
        }
    } else {
        Parsed::Unmatched
    }
}

/// `vec![E1, E2, ...]`: a list that takes up all tokens of the group.
pub open spec fn vec_sequence(tokens: Seq<TokenTree>, pos: nat) -> Parsed<Mapping>
    decreases tokens, left(tokens, pos), 32nat, 0nat,
{
    if is_vec(tokens, pos) {
        let inner = tokens[(pos + 2) as int]->Group_0.stream@;
        match listed(inner, 0, Seq::empty()) {
            Parsed::Matched(elements, next) => if next >= inner.len() {
                Parsed::Matched(
                    Mapping {
                        text: vec_sequence_text(elements),
                        needs_semicolon_unless_final: false,
                    },
                    pos + 3,
                )
            } else {
                Parsed::Unmatched
            },
            Parsed::Unmatched => Parsed::Unmatched,
            Parsed::Aborted(diagnostic) => Parsed::Aborted(diagnostic),
        }
    } else {
        Parsed::Unmatched
    }
}

/// A brace-delimited group, read as statements.
pub open spec fn block(tokens: Seq<TokenTree>, pos: nat) -> Parsed<Mapping>
    decreases tokens, left(tokens, pos), 32nat, 0nat,
{
    if pos < tokens.len() {
        match tokens[pos as int] {
            TokenTree::Group(group) => if group.delimiter == Delimiter::Brace {
                match statements(group.stream@, 0, Seq::empty()) {
                    Ok(body) => Parsed::Matched(
                        Mapping { text: block_text(body), needs_semicolon_unless_final: false },
                        pos + 1,
                    ),
                    Err(diagnostic) => Parsed::Aborted(diagnostic),
                }
            } else {
                Parsed::Unmatched
            },
            _ => Parsed::Unmatched,
        }
    } else {
        Parsed::Unmatched
    }
}

/// The statements of the group at `pos`, whatever its delimiter.
pub open spec fn body(tokens: Seq<TokenTree>, pos: nat) -> Parsed<Seq<char>>
    decreases tokens, left(tokens, pos), 10nat, 0nat,
{
    if pos < tokens.len() {
        match tokens[pos as int] {
            TokenTree::Group(group) => match statements(group.stream@, 0, Seq::empty()) {
                Ok(text) => Parsed::Matched(text, pos + 1),
                Err(diagnostic) => Parsed::Aborted(diagnostic),
            },
            _ => Parsed::Unmatched,
        }
    } else {
        Parsed::Unmatched
    }
}

/// What follows the body of a conditional: an `else` with a block or
/// another conditional, or nothing.
pub open spec fn else_clause(tokens: Seq<TokenTree>, pos: nat) -> Parsed<Seq<char>>
    decreases tokens, left(tokens, pos), 33nat, 0nat,
{
    if is_token(tokens, pos, "else"@) {
        match block(tokens, pos + 1) {
            Parsed::Matched(clause, next) => Parsed::Matched(else_text(clause.text), next),
            Parsed::Aborted(diagnostic) => Parsed::Aborted(diagnostic),
            Parsed::Unmatched => match if_condition(tokens, pos + 1) {
                Parsed::Matched(clause, next) => Parsed::Matched(else_text(clause.text), next),
                Parsed::Aborted(diagnostic) => Parsed::Aborted(diagnostic),
                Parsed::Unmatched => Parsed::Unmatched,
            },
        }
    } else {
        Parsed::Matched("None"@, pos)
    }
}

/// `if CONDITION { STATEMENTS }`, with an optional else clause.
pub open spec fn if_condition(tokens: Seq<TokenTree>, pos: nat) -> Parsed<Mapping>
    decreases tokens, left(tokens, pos), 32nat, 0nat,
{
    if is_token(tokens, pos, "if"@) {
        match advanced(tokens, pos + 1, expression(tokens, pos + 1)) {
            Parsed::Matched(condition, at) => match body(tokens, at) {
                Parsed::Matched(statements, _) => match advanced(
                    tokens,
                    at,
                    else_clause(tokens, at + 1),
                ) {
                    Parsed::Matched(clause, next) => Parsed::Matched(
                        Mapping {
                            text: if_text(statements, condition.text, clause),
                            needs_semicolon_unless_final: false,
                        },
                        next,
                    ),
                    Parsed::Unmatched => Parsed::Unmatched,
                    Parsed::Aborted(diagnostic) => Parsed::Aborted(diagnostic),
                },
                Parsed::Unmatched => Parsed::Unmatched,
                Parsed::Aborted(diagnostic) => Parsed::Aborted(diagnostic),
            },
            Parsed::Unmatched => Parsed::Unmatched,
            Parsed::Aborted(diagnostic) => Parsed::Aborted(diagnostic),
        }
    } else {
        Parsed::Unmatched
    }
}

/// Whether a loop tag stands at `pos`: an apostrophe, an identifier and a
/// colon.
pub open spec fn tagged(tokens: Seq<TokenTree>, pos: nat) -> bool {
    &&& pos + 2 < tokens.len()
    &&& tokens[pos as int] == TokenTree::Punct('\'')
    &&& tokens[(pos + 1) as int] is Ident
    &&& tokens[(pos + 2) as int] == TokenTree::Punct(':')
}

/// The constructor of the tag at `pos`, or of no tag.
pub open spec fn tag(tokens: Seq<TokenTree>, pos: nat) -> Seq<char> {
    if tagged(tokens, pos) {
        tag_text(tokens[(pos + 1) as int]->Ident_0@)
    } else {
        "None"@
    }
}

/// The position after the tag at `pos`, where there is one.
pub open spec fn after_tag(tokens: Seq<TokenTree>, pos: nat) -> nat {
    if tagged(tokens, pos) {
        pos + 3
    } else {
        pos
    }
}

/// `for [mut] NAME in START..END { STATEMENTS }`, with an optional tag
/// before it.
pub open spec fn for_loop(tokens: Seq<TokenTree>, pos: nat) -> Parsed<Mapping>
    decreases tokens, left(tokens, pos), 32nat, 0nat,
{
    let start = after_tag(tokens, pos);
    if is_token(tokens, start, "for"@) {
        let named = skip(tokens, start + 1, "mut"@);
        if named < tokens.len() && tokens[named as int] is Ident && is_token(
            tokens,
            named + 1,
            "in"@,
        ) {
            match advanced(tokens, named + 2, expression(tokens, named + 2)) {
                Parsed::Matched(from, dots) => if is_token(tokens, dots, "."@) && is_token(
                    tokens,
                    dots + 1,
                    "."@,
                ) {
                    match advanced(tokens, dots + 2, expression(tokens, dots + 2)) {
                        Parsed::Matched(to, at) => match body(tokens, at) {
                            Parsed::Matched(statements, _) => Parsed::Matched(
                                Mapping {
                                    text: for_text(
                                        tag(tokens, pos),
                                        statements,
                                        reference_text(tokens[named as int]->Ident_0@),
                                        from.text,
                                        to.text,
                                    ),
                                    needs_semicolon_unless_final: false,
                                },
                                at + 1,
                            ),
                            Parsed::Unmatched => Parsed::Unmatched,
                            Parsed::Aborted(diagnostic) => Parsed::Aborted(diagnostic),
                        },
                        Parsed::Unmatched => Parsed::Unmatched,
                        Parsed::Aborted(diagnostic) => Parsed::Aborted(diagnostic),
                    }
                } else {
                    Parsed::Unmatched
                },
                Parsed::Unmatched => Parsed::Unmatched,
                Parsed::Aborted(diagnostic) => Parsed::Aborted(diagnostic),
            }
        } else {
            Parsed::Unmatched
        }
    } else {
        Parsed::Unmatched
    }
}

/// `while CONDITION { STATEMENTS }`, with an optional tag before it.
pub open spec fn while_loop(tokens: Seq<TokenTree>, pos: nat) -> Parsed<Mapping>
    decreases tokens, left(tokens, pos), 32nat, 0nat,
{
    let start = after_tag(tokens, pos);
    if is_token(tokens, start, "while"@) {
        match advanced(tokens, start + 1, expression(tokens, start + 1)) {
            Parsed::Matched(condition, at) => match body(tokens, at) {
                Parsed::Matched(statements, _) => Parsed::Matched(
                    Mapping {
                        text: while_text(tag(tokens, pos), statements, condition.text),
                        needs_semicolon_unless_final: false,
                    },
                    at + 1,
                ),
                Parsed::Unmatched => Parsed::Unmatched,
                Parsed::Aborted(diagnostic) => Parsed::Aborted(diagnostic),
            },
            Parsed::Unmatched => Parsed::Unmatched,
            Parsed::Aborted(diagnostic) => Parsed::Aborted(diagnostic),
        }
    } else {
        Parsed::Unmatched
    }
}

/// One reading of an expression.
pub open spec fn alternative(which: Alternative, tokens: Seq<TokenTree>, pos: nat) -> Parsed<Mapping>
    decreases tokens, left(tokens, pos), 33nat, 0nat,
{
    match which {
        Alternative::FunctionCall => function_call(tokens, pos),
        Alternative::VecShorthand => vec_shorthand(tokens, pos),
        Alternative::VecSequence => vec_sequence(tokens, pos),
        Alternative::IfCondition => if_condition(tokens, pos),
        Alternative::Block => block(tokens, pos),
        Alternative::ForLoop => for_loop(tokens, pos),
        Alternative::WhileLoop => while_loop(tokens, pos),
        Alternative::SimpleExpression => simple_expression(tokens, pos),
    }
}

/// The first of the readings from `from` on that fits; a reading that gives
/// the input up ends the search.
pub open spec fn first_of(
    alternatives: Seq<Alternative>,
    from: nat,
    tokens: Seq<TokenTree>,
    pos: nat,
) -> Parsed<Mapping>
    decreases tokens, left(tokens, pos), 34nat, alternatives.len() - from,
{
    if from >= alternatives.len() {
        Parsed::Unmatched
    } else {
        match alternative(alternatives[from as int], tokens, pos) {
            Parsed::Unmatched => first_of(alternatives, from + 1, tokens, pos),
            found => found,
        }
    }
}

/// The readings of an expression, in the order in which they are tried.
pub open spec fn expression_alternatives() -> Seq<Alternative> {
    seq![
        Alternative::FunctionCall,
        Alternative::VecShorthand,
        Alternative::VecSequence,
        Alternative::IfCondition,
        Alternative::Block,
        Alternative::ForLoop,
        Alternative::WhileLoop,
        Alternative::SimpleExpression,
    ]
}

/// An expression: the first reading that fits.
pub open spec fn expression(tokens: Seq<TokenTree>, pos: nat) -> Parsed<Mapping>
    decreases tokens, left(tokens, pos), 35nat, 0nat,
{
    first_of(expression_alternatives(), 0, tokens, pos)
}

/// The position after an optional `let` and an optional `mut`.
pub open spec fn after_binding_words(tokens: Seq<TokenTree>, pos: nat) -> nat {
    skip(tokens, skip(tokens, pos, "let"@), "mut"@)
}

/// `[let] [mut] NAME = EXPRESSION;`
pub open spec fn assignment(tokens: Seq<TokenTree>, pos: nat) -> Parsed<Seq<char>>
    decreases tokens, left(tokens, pos), 37nat, 0nat,
{
    let named = after_binding_words(tokens, pos);
    if named < tokens.len() && tokens[named as int] is Ident && is_token(tokens, named + 1, "="@) {
        match advanced(tokens, named + 2, expression(tokens, named + 2)) {
            Parsed::Matched(right, next) => if is_token(tokens, next, ";"@) {
                Parsed::Matched(
                    assignment_text(reference_text(tokens[named as int]->Ident_0@), right.text),
                    next + 1,
                )
            } else {
                Parsed::Unmatched
            },
            Parsed::Unmatched => Parsed::Unmatched,
            Parsed::Aborted(diagnostic) => Parsed::Aborted(diagnostic),
        }
    } else {
        Parsed::Unmatched
    }
}

/// `[let] [mut] NAME[INDEX] = EXPRESSION;`
pub open spec fn indexed_assignment(tokens: Seq<TokenTree>, pos: nat) -> Parsed<Seq<char>>
    decreases tokens, left(tokens, pos), 37nat, 0nat,
{
    let named = after_binding_words(tokens, pos);
    match indexed_access(tokens, named, false) {
        Parsed::Matched(access, _) => if is_token(tokens, named + 2, "="@) {
            match advanced(tokens, named + 3, expression(tokens, named + 3)) {
                Parsed::Matched(right, next) => if is_token(tokens, next, ";"@) {
                    Parsed::Matched(indexed_assignment_text(access, right.text), next + 1)
                } else {
                    Parsed::Unmatched
                },
                Parsed::Unmatched => Parsed::Unmatched,
                Parsed::Aborted(diagnostic) => Parsed::Aborted(diagnostic),
            }
        } else {
            Parsed::Unmatched
        },
        Parsed::Unmatched => Parsed::Unmatched,
        Parsed::Aborted(diagnostic) => Parsed::Aborted(diagnostic),
    }
}

/// An expression as a statement. A semicolon after it is taken; without
/// one, the expression must be the last thing, or of a kind that needs no
/// semicolon.
pub open spec fn expression_statement(tokens: Seq<TokenTree>, pos: nat) -> Parsed<Seq<char>>
    decreases tokens, left(tokens, pos), 37nat, 0nat,
{
    match advanced(tokens, pos, expression(tokens, pos)) {
        Parsed::Matched(found, next) => if is_token(tokens, next, ";"@) {
            Parsed::Matched(expression_statement_text(found.text), next + 1)
        } else if next >= tokens.len() || !found.needs_semicolon_unless_final {
            Parsed::Matched(expression_statement_text(found.text), next)
        } else {
            Parsed::Unmatched
        },
        Parsed::Unmatched => Parsed::Unmatched,
        Parsed::Aborted(diagnostic) => Parsed::Aborted(diagnostic),
    }
}

/// One reading of a statement.
pub open spec fn statement_alternative(
    which: StatementAlternative,
    tokens: Seq<TokenTree>,
    pos: nat,
) -> Parsed<Seq<char>>
    decreases tokens, left(tokens, pos), 38nat, 0nat,
{
    match which {
        StatementAlternative::Assignment => assignment(tokens, pos),
        StatementAlternative::IndexedAssignment => indexed_assignment(tokens, pos),
        StatementAlternative::Expression => expression_statement(tokens, pos),
    }
}

/// The texts of the tokens from `pos` on, five at most.
pub open spec fn upcoming(tokens: Seq<TokenTree>, pos: nat) -> Seq<Seq<char>> {
    Seq::new(
        if left(tokens, pos) < 5 {
            left(tokens, pos)
        } else {
            5
        },
        |i: int| tokens[pos + i].text(),
    )
}

/// A statement: an assignment, an indexed assignment or an expression
/// statement, whichever fits first. Where none does, the input is given up.
pub open spec fn statement(tokens: Seq<TokenTree>, pos: nat) -> Parsed<Seq<char>>
    decreases tokens, left(tokens, pos), 39nat, 0nat,
{
    match statement_alternative(StatementAlternative::Assignment, tokens, pos) {
        Parsed::Unmatched => match statement_alternative(
            StatementAlternative::IndexedAssignment,
            tokens,
            pos,
        ) {
            Parsed::Unmatched => match statement_alternative(
                StatementAlternative::Expression,
                tokens,
                pos,
            ) {
                Parsed::Unmatched => Parsed::Aborted(
                    Diagnostic::StatementNotRecognized(upcoming(tokens, pos)),
                ),
                found => found,
            },
            found => found,
        },
        found => found,
    }
}

/// The statements from `pos` to the end of the tokens; `gathered` holds the
/// constructors so far, each followed by a comma.
pub open spec fn statements(tokens: Seq<TokenTree>, pos: nat, gathered: Seq<char>) -> Result<
    Seq<char>,
    Diagnostic,
>
    decreases tokens, left(tokens, pos), 40nat, 0nat,
{
    if pos >= tokens.len() {
        Ok(gathered)
    } else {
        match advanced(tokens, pos, statement(tokens, pos)) {
            Parsed::Matched(text, next) => statements(tokens, next, gathered + text + ","@),
            Parsed::Unmatched => Err(Diagnostic::StatementNotRecognized(upcoming(tokens, pos))),
            Parsed::Aborted(diagnostic) => Err(diagnostic),
        }
    }
}

} // verus!
