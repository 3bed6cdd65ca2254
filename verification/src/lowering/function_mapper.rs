//! Lowering of a function item and of the attribute payload that declares
//! the contracts of its loops.

use vstd::prelude::*;
use vstd::string::StringExecFns;
use crate::lowering::error::LoweringError;
use crate::lowering::expression_mapper::{map_statements, try_get_identifier};
use crate::lowering::grammar::{Diagnostic, skip, statements};
use crate::text::{fill2, fill3, is_text};
use crate::lowering::token_container::{Delimiter, Group, TokenTree};
use crate::lowering::token_iterator::{TokenIterator, is_token};

verus! {

/// What the scan of a function item has found so far.
#[derive(Debug)]
pub struct FunctionParams {
    pub function_name: Option<String>,
    pub function_args: Option<String>,
    pub function_statements: Option<String>,
}

/// What the scan of a function item has found so far.
pub struct Parts {
    pub name: Option<Seq<char>>,
    pub args: Option<Seq<char>>,
    pub statements: Option<Seq<char>>,
}

impl View for FunctionParams {
    type V = Parts;

    open spec fn view(&self) -> Parts {
        Parts {
            name: match self.function_name {
                Some(text) => Some(text@),
                None => None,
            },
            args: match self.function_args {
                Some(text) => Some(text@),
                None => None,
            },
            statements: match self.function_statements {
                Some(text) => Some(text@),
                None => None,
            },
        }
    }
}

/// The constructor of a parameter name.
pub open spec fn argument_text(name: Seq<char>) -> Seq<char> {
    "\""@ + name + "\".to_owned()"@
}

/// The parameter names of a list `NAME: TYPE, ...` whose types are single
/// identifiers, as constructors separated by `, `; `gathered` holds those
/// before `pos`. Nothing where the list is of another shape.
pub open spec fn arguments(tokens: Seq<TokenTree>, pos: nat, gathered: Seq<char>, first: bool) -> Option<
    Seq<char>,
>
    decreases tokens.len() - pos,
{
    if pos >= tokens.len() {
        Some(gathered)
    } else if tokens[pos as int] is Ident && is_token(tokens, pos + 1, ":"@) && pos + 2
        < tokens.len() && tokens[(pos + 2) as int] is Ident {
        arguments(
            tokens,
            skip(tokens, pos + 3, ","@),
            if first {
                argument_text(tokens[pos as int]->Ident_0@)
            } else {
                gathered + ", "@ + argument_text(tokens[pos as int]->Ident_0@)
            },
            false,
        )
    } else {
        None
    }
}

/// The constructor of one condition of a contract.
pub open spec fn condition_text(condition: Seq<char>, function: Seq<char>) -> Seq<char> {
    condition + ": Some((\""@ + function
        + "\".to_owned(), algorithmify::expressions::FunctionBuilder::new("@ + function
        + "__function_builder()))),"@
}

/// The constructor of one entry of the contract table.
pub open spec fn contract_text(tag: Seq<char>, conditions: Seq<char>) -> Seq<char> {
    "(\""@ + tag + "\".to_owned(), algorithmify::expressions::loops::Contract {"@ + conditions
        + "..Default::default()}),"@
}

/// The conditions of one contract, `NAME: FUNCTION, ...`, as constructors;
/// `gathered` holds those before `pos`.
pub open spec fn conditions(tokens: Seq<TokenTree>, pos: nat, gathered: Seq<char>) -> Result<
    Seq<char>,
    Diagnostic,
>
    decreases tokens.len() - pos,
{
    if pos >= tokens.len() {
        Ok(gathered)
    } else if !is_token(tokens, pos + 1, ":"@) {
        Err(Diagnostic::ExpectedColon(pos + 1))
    } else if pos + 2 < tokens.len() && tokens[(pos + 2) as int] is Ident {
        conditions(
            tokens,
            skip(tokens, pos + 3, ","@),
            gathered + condition_text(tokens[pos as int].text(), tokens[(pos + 2) as int]->Ident_0@),
        )
    } else {
        Err(Diagnostic::ExpectedFunctionName(pos + 2))
    }
}

/// The entries of the contract table, `TAG: { CONDITIONS }, ...`, as
/// constructors; `gathered` holds those before `pos`.
pub open spec fn contracts(tokens: Seq<TokenTree>, pos: nat, gathered: Seq<char>) -> Result<
    Seq<char>,
    Diagnostic,
>
    decreases tokens.len() - pos,
{
    if pos >= tokens.len() {
        Ok(gathered)
    } else if !is_token(tokens, pos + 1, ":"@) {
        Err(Diagnostic::ExpectedColon(pos + 1))
    } else if pos + 2 < tokens.len() && (tokens[(pos + 2) as int] matches TokenTree::Group(group)
        && group.delimiter == Delimiter::Brace) {
        match conditions(tokens[(pos + 2) as int]->Group_0.stream@, 0, Seq::empty()) {
            Ok(found) => contracts(
                tokens,
                skip(tokens, pos + 3, ","@),
                gathered + contract_text(tokens[pos as int].text(), found),
            ),
            Err(diagnostic) => Err(diagnostic),
        }
    } else {
        Err(Diagnostic::ExpectedBracedGroup(pos + 2))
    }
}

/// The scan of a function item from `pos` on: the token after `fn` is the
/// name, a parenthesised group holds the parameters, a braced group the
/// body; of several the last one counts.
pub open spec fn scan(tokens: Seq<TokenTree>, pos: nat, parts: Parts) -> Result<Parts, Diagnostic>
    decreases tokens.len() - pos,
{
    if pos >= tokens.len() {
        Ok(parts)
    } else {
        match tokens[pos as int] {
            TokenTree::Ident(word) => if word@ == "fn"@ {
                if pos + 1 < tokens.len() {
                    scan(
                        tokens,
                        pos + 1,
                        Parts { name: Some(tokens[(pos + 1) as int].text()), ..parts },
                    )
                } else {
                    Err(Diagnostic::MissingFunctionName)
                }
            } else {
                scan(tokens, pos + 1, parts)
            },
            TokenTree::Group(group) => match group.delimiter {
                Delimiter::Parenthesis => scan(
                    tokens,
                    pos + 1,
                    Parts { args: arguments(group.stream@, 0, Seq::empty(), true), ..parts },
                ),
                Delimiter::Brace => match statements(group.stream@, 0, Seq::empty()) {
                    Ok(text) => scan(tokens, pos + 1, Parts { statements: Some(text), ..parts }),
                    Err(diagnostic) => Err(diagnostic),
                },
                _ => scan(tokens, pos + 1, parts),
            },
            _ => scan(tokens, pos + 1, parts),
        }
    }
}

/// What an optional text stands for: itself, or the empty text.
pub open spec fn or_empty(text: Option<Seq<char>>) -> Seq<char> {
    match text {
        Some(found) => found,
        None => Seq::empty(),
    }
}

/// The source of the builder of a function.
pub open spec fn builder_text(
    name: Seq<char>,
    args: Seq<char>,
    statements: Seq<char>,
    contracts: Seq<char>,
) -> Seq<char> {
    "
        fn "@ + name + "__function_builder() -> algorithmify::Function {
            algorithmify::Function::new(
                vec![
                    "@ + args + "
                ],
                vec![
                    "@ + statements + "
                ],
                algorithmify::interpreter::context::ContractMap::from(vec!["@ + contracts + "])
            )
        }

        #[allow(unused_labels)]
        #[allow(dead_code)]
    "@
}

/// The builder of the function item `stream` with the attribute payload
/// `attrs`, or why there is none.
pub open spec fn function_builder(stream: Seq<TokenTree>, attrs: Seq<TokenTree>) -> Result<
    Seq<char>,
    Diagnostic,
> {
    match scan(stream, 0, Parts { name: None, args: None, statements: None }) {
        Err(diagnostic) => Err(diagnostic),
        Ok(parts) => match parts.name {
            None => Err(Diagnostic::MissingFunctionName),
            Some(name) => match contracts(attrs, 0, Seq::empty()) {
                Err(diagnostic) => Err(diagnostic),
                Ok(table) => Ok(
                    builder_text(name, or_empty(parts.args), or_empty(parts.statements), table),
                ),
            },
        },
    }
}

/// The executed lowering is the expected one.
pub open spec fn lowers(result: Result<String, LoweringError>, expected: Result<Seq<char>, Diagnostic>) -> bool {
    match expected {
        Ok(text) => result matches Ok(found) && found@ == text,
        Err(diagnostic) => result matches Err(error) && error@ == diagnostic,
    }
}

/// Lowers a function item, with the attribute payload that declares the
/// contracts of its loops, to the source of a builder procedure
/// `NAME__function_builder` that returns the function as a syntax tree.
#[verifier::loop_isolation(false)]
pub fn define_function_builder(stream: &Vec<TokenTree>, attrs: &Vec<TokenTree>) -> (r: Result<
    String,
    LoweringError,
>)
    ensures
        lowers(r, function_builder(stream@, attrs@)),
{
    let mut params = FunctionParams {
        function_name: None,
        function_args: None,
        function_statements: None,
    };
    let ghost whole = scan(stream@, 0, params@);
    let mut index: usize = 0;
    while index < stream.len()
        invariant
            index <= stream@.len(),
            scan(stream@, index as nat, params@) == whole,
        decreases stream@.len() - index,
    {
        match &stream[index] {
            TokenTree::Ident(identifier) => {
                if is_text(identifier, "fn") {
                    if index + 1 < stream.len() {
                        params.function_name = Some(stream[index + 1].to_text());
                    } else {
                        return Err(LoweringError::MissingFunctionName);
                    }
                }
            },
            TokenTree::Group(body) => match body.delimiter {
                Delimiter::Parenthesis => {
                    params.function_args = map_args(body);
                },
                Delimiter::Brace => {
                    match map_function_body(&mut params, body) {
                        Ok(()) => {},
                        Err(error) => {
                            return Err(error);
                        },
                    }
                },
                _ => {},
            },
            _ => {},
        }
        index += 1;
    }
    let name = match params.function_name {
        Some(name) => name,
        None => {
            return Err(LoweringError::MissingFunctionName);
        },
    };
    let args = match params.function_args {
        Some(args) => args,
        None => String::new(),
    };
    let statements = match params.function_statements {
        Some(statements) => statements,
        None => String::new(),
    };
    let contracts = match build_contracts(attrs) {
        Ok(contracts) => contracts,
        Err(error) => {
            return Err(error);
        },
    };
    let mut builder = fill3(
        "
        fn ",
        name.as_str(),
        "__function_builder() -> algorithmify::Function {
            algorithmify::Function::new(
                vec![
                    ",
        args.as_str(),
        "
                ],
                vec![
                    ",
        statements.as_str(),
        "
                ],
                algorithmify::interpreter::context::ContractMap::from(vec![",
    );
    builder.append(contracts.as_str());
    builder.append("])
            )
        }

        #[allow(unused_labels)]
        #[allow(dead_code)]
    ");
    Ok(builder)
}

/// Maps the parameter list of a function item to the constructors of the
/// parameter names.
#[verifier::loop_isolation(false)]
pub fn map_args(body: &Group) -> (r: Option<String>)
    ensures
        match arguments(body.stream@, 0, Seq::empty(), true) {
            Some(text) => r matches Some(found) && found@ == text,
            None => r is None,
        },
{
    let mut iterator = TokenIterator::over(&body.stream);
    let ghost whole = arguments(body.stream@, 0, Seq::empty(), true);
    let mut args = String::new();
    let mut first = true;
    while iterator.peek().is_some()
        invariant
            iterator.tokens@ == body.stream@,
            iterator.index <= body.stream@.len(),
            arguments(body.stream@, iterator.index as nat, args@, first) == whole,
            first ==> args@ == Seq::<char>::empty(),
        decreases body.stream@.len() - iterator.index,
    {
        let arg = match try_get_identifier(&mut iterator) {
            Some(arg) => arg,
            None => {
                return None;
            },
        };
        if iterator.try_get_next_token(":").is_none() {
            return None;
        }
        if try_get_identifier(&mut iterator).is_none() {
            return None;
        }
        let ghost before = args@;
        if !first {
            args.append(", ");
        }
        args.append("\"");
        args.append(arg.as_str());
        args.append("\".to_owned()");
        proof {
            if first {
                assert(args@ =~= argument_text(arg@));
            } else {
                assert(args@ =~= before + ", "@ + argument_text(arg@));
            }
        }
        first = false;
        iterator.try_get_next_token(",");
    }
    Some(args)
}

/// Maps the body of a function item and keeps the constructors of its
/// statements.
pub fn map_function_body(params: &mut FunctionParams, body: &Group) -> (r: Result<(), LoweringError>)
    ensures
        final(params).function_name == old(params).function_name,
        final(params).function_args == old(params).function_args,
        match statements(body.stream@, 0, Seq::empty()) {
            Ok(text) => r is Ok && (final(params).function_statements matches Some(found) && found@
                == text),
            Err(diagnostic) => r matches Err(error) && error@ == diagnostic,
        },
{
    let body = match map_statements(body) {
        Ok(body) => body,
        Err(error) => {
            return Err(error);
        },
    };
    params.function_statements = Some(body);
    Ok(())
}

/// Maps the attribute payload `TAG: { CONDITIONS }, ...` to the
/// constructors of the entries of the contract table.
#[verifier::loop_isolation(false)]
pub fn build_contracts(attrs: &Vec<TokenTree>) -> (r: Result<String, LoweringError>)
    ensures
        lowers(r, contracts(attrs@, 0, Seq::empty())),
{
    let mut iterator = TokenIterator::over(attrs);
    let ghost whole = contracts(attrs@, 0, Seq::empty());
    let mut table = String::new();
    while iterator.peek().is_some()
        invariant
            iterator.tokens@ == attrs@,
            iterator.index <= attrs@.len(),
            contracts(attrs@, iterator.index as nat, table@) == whole,
        decreases attrs@.len() - iterator.index,
    {
        let tag = iterator.next().unwrap().to_text();
        if iterator.try_get_next_token(":").is_none() {
            return Err(LoweringError::ExpectedColon(iterator.index));
        }
        let at = iterator.index;
        match iterator.next() {
            Some(TokenTree::Group(group)) => match group.delimiter {
                Delimiter::Brace => {
                    let inner_iterator = TokenIterator::over(&group.stream);
                    match build_contract(tag, inner_iterator) {
                        Ok(contract) => {
                            table.append(contract.as_str());
                        },
                        Err(error) => {
                            return Err(error);
                        },
                    }
                },
                _ => {
                    return Err(LoweringError::ExpectedBracedGroup(at));
                },
            },
            _ => {
                return Err(LoweringError::ExpectedBracedGroup(at));
            },
        }
        iterator.try_get_next_token(",");
    }
    Ok(table)
}

/// Maps the conditions `NAME: FUNCTION, ...` of the contract with this tag
/// to the constructor of its entry in the contract table.
#[verifier::loop_isolation(false)]
pub fn build_contract(tag: String, iterator: TokenIterator) -> (r: Result<String, LoweringError>)
    requires
        iterator.index == 0,
    ensures
        match conditions(iterator.tokens@, 0, Seq::empty()) {
            Ok(found) => r matches Ok(text) && text@ == contract_text(tag@, found),
            Err(diagnostic) => r matches Err(error) && error@ == diagnostic,
        },
{
    let mut iterator = iterator;
    let ghost tokens = iterator.tokens@;
    let ghost whole = conditions(tokens, 0, Seq::empty());
    let mut entries = String::new();
    while iterator.peek().is_some()
        invariant
            iterator.tokens@ == tokens,
            iterator.index <= tokens.len(),
            conditions(tokens, iterator.index as nat, entries@) == whole,
        decreases tokens.len() - iterator.index,
    {
        let condition = iterator.next().unwrap().to_text();
        if iterator.try_get_next_token(":").is_none() {
            return Err(LoweringError::ExpectedColon(iterator.index));
        }
        let at = iterator.index;
        match iterator.next() {
            Some(TokenTree::Ident(function)) => {
                let entry = fill3(
                    "",
                    condition.as_str(),
                    ": Some((\"",
                    function.as_str(),
                    "\".to_owned(), algorithmify::expressions::FunctionBuilder::new(",
                    function.as_str(),
                    "__function_builder()))),",
                );
                proof {
                    reveal_strlit("");
                    assert(""@ + condition@ =~= condition@);
                }
                entries.append(entry.as_str());
            },
            _ => {
                return Err(LoweringError::ExpectedFunctionName(at));
            },
        }
        iterator.try_get_next_token(",");
    }
    Ok(
        fill2(
            "(\"",
            tag.as_str(),
            "\".to_owned(), algorithmify::expressions::loops::Contract {",
            entries.as_str(),
            "..Default::default()}),",
        ),
    )
}

} // verus!
