#![allow(dead_code)]

use algorithmify::expressions::block::Block;
use algorithmify::expressions::conditions::{Condition, If};
use algorithmify::expressions::loops::{Contract, Loop, RangedForLoop, WhileLoop};
use algorithmify::expressions::{
    Expression, FunctionBuilder, FunctionCall, IndexedAccessExpression, Integer, MethodCall,
    Operation, Reference, Statement,
};
use algorithmify::interpreter::context::{Context, ContractMap};
use algorithmify::interpreter::error::EvaluationError;
use algorithmify::interpreter::model::{MismatchContext, ValueKind};
use algorithmify::expressions::operation::OperationKind;
use algorithmify::lowering::function_mapper::define_function_builder;
use algorithmify::lowering::token_container::{Delimiter, Group, TokenTree};
use algorithmify::{Function, Interpreter};

fn variable(name: &str) -> Expression {
    Expression::Reference(Reference::Variable(name.to_owned()))
}

fn number(value: i32) -> Expression {
    Expression::Integer(Integer::I32(value))
}

fn operation(operation: Operation) -> Expression {
    Expression::Operation(Box::new(operation))
}

fn assignment(name: &str, expression: Expression) -> Statement {
    Statement::Assignment(Reference::Variable(name.to_owned()), expression)
}

fn indexed(name: &str, index: Expression) -> IndexedAccessExpression {
    IndexedAccessExpression { variable: name.to_owned(), index: Box::new(index) }
}

fn element(name: &str, index: Expression) -> Expression {
    Expression::IndexedAccessExpression(indexed(name, index))
}

fn block(statements: Vec<Statement>) -> Expression {
    Expression::Block(Box::new(Block { statements }))
}

fn conditional(condition: Expression, statements: Vec<Statement>, else_clause: Option<Expression>) -> Expression {
    Expression::Condition(Box::new(Condition::If(If { statements, else_clause, condition })))
}

fn ranged_for(
    tag: Option<&str>,
    name: &str,
    start: Expression,
    end: Expression,
    statements: Vec<Statement>,
) -> Expression {
    Expression::Loop(Box::new(Loop::RangedFor(RangedForLoop {
        tag: tag.map(|tag| tag.to_owned()),
        statements,
        variable: Reference::Variable(name.to_owned()),
        start,
        end,
    })))
}

fn while_loop(tag: Option<&str>, condition: Expression, statements: Vec<Statement>) -> Expression {
    Expression::Loop(Box::new(Loop::While(WhileLoop {
        tag: tag.map(|tag| tag.to_owned()),
        statements,
        condition,
    })))
}

fn call(function: Function, params: Vec<Expression>) -> Expression {
    Expression::FunctionCall(FunctionCall { builder: FunctionBuilder::new(function), params })
}

fn length_of(name: &str) -> Expression {
    Expression::MethodCall(MethodCall {
        expression: Box::new(variable(name)),
        method: "len".to_owned(),
        args: vec![],
    })
}

fn function(args: &[&str], statements: Vec<Statement>) -> Function {
    Function::new(args.iter().map(|arg| (*arg).to_owned()).collect(), statements, ContractMap::new())
}

fn condition_named(name: &str, function: Function) -> Option<(String, FunctionBuilder)> {
    Some((name.to_owned(), FunctionBuilder::new(function)))
}

/// Splits source text into tokens the way the compiler hands them to an
/// attribute: identifiers, literals, single punctuation characters and
/// delimited groups.
fn tokens(source: &str) -> Vec<TokenTree> {
    let characters: Vec<char> = source.chars().collect();
    let mut position = 0;
    let found = read(&characters, &mut position, None);
    assert_eq!(position, characters.len());
    found
}

fn read(characters: &[char], position: &mut usize, closing: Option<char>) -> Vec<TokenTree> {
    let mut found = Vec::new();
    while *position < characters.len() {
        let c = characters[*position];
        if c.is_whitespace() {
            *position += 1;
        } else if Some(c) == closing {
            return found;
        } else if c == '(' || c == '[' || c == '{' {
            let (delimiter, close) = match c {
                '(' => (Delimiter::Parenthesis, ')'),
                '[' => (Delimiter::Bracket, ']'),
                _ => (Delimiter::Brace, '}'),
            };
            let start = *position;
            *position += 1;
            let stream = read(characters, position, Some(close));
            assert_eq!(characters[*position], close);
            *position += 1;
            let text: String = characters[start..*position].iter().collect();
            found.push(TokenTree::Group(Group { delimiter, stream, text }));
        } else if c == '"' {
            let start = *position;
            *position += 1;
            while characters[*position] != '"' {
                *position += 1;
            }
            *position += 1;
            found.push(TokenTree::Literal(characters[start..*position].iter().collect()));
        } else if c.is_alphabetic() || c == '_' {
            let start = *position;
            while *position < characters.len()
                && (characters[*position].is_alphanumeric() || characters[*position] == '_')
            {
                *position += 1;
            }
            found.push(TokenTree::Ident(characters[start..*position].iter().collect()));
        } else if c.is_ascii_digit() {
            let start = *position;
            while *position < characters.len() && characters[*position].is_alphanumeric() {
                *position += 1;
            }
            found.push(TokenTree::Literal(characters[start..*position].iter().collect()));
        } else {
            found.push(TokenTree::Punct(c));
            *position += 1;
        }
    }
    found
}

/// What a piece of constructor text builds.
#[derive(Debug, Clone)]
enum Built {
    Text(String),
    Number(String),
    Flag(bool),
    Optional(Option<Box<Built>>),
    Sequence(Vec<Built>),
    Integer(Integer),
    Reference(Reference),
    Indexed(IndexedAccessExpression),
    Operation(Operation),
    Block(Block),
    If(If),
    Condition(Condition),
    While(WhileLoop),
    For(RangedForLoop),
    Loop(Loop),
    Call(FunctionCall),
    Builder(FunctionBuilder),
    Function(Function),
    Contract(Contract),
    Contracts(ContractMap),
    Expression(Expression),
    Statement(Statement),
}

impl Built {
    fn expression(self) -> Expression {
        match self {
            Built::Expression(expression) => expression,
            other => panic!("no expression: {:?}", other),
        }
    }

    fn text(self) -> String {
        match self {
            Built::Text(text) => text,
            other => panic!("no text: {:?}", other),
        }
    }

    fn sequence(self) -> Vec<Built> {
        match self {
            Built::Sequence(items) => items,
            other => panic!("no sequence: {:?}", other),
        }
    }

    fn statements(self) -> Vec<Statement> {
        self.sequence()
            .into_iter()
            .map(|item| match item {
                Built::Statement(statement) => statement,
                other => panic!("no statement: {:?}", other),
            })
            .collect()
    }

    fn optional_text(self) -> Option<String> {
        match self {
            Built::Optional(found) => found.map(|text| text.text()),
            other => panic!("no option: {:?}", other),
        }
    }
}

/// The builders that constructor text may name.
type Builders = Vec<(&'static str, Function)>;

struct Constructors<'a> {
    tokens: &'a [TokenTree],
    position: usize,
    builders: &'a Builders,
}

impl<'a> Constructors<'a> {
    fn peek(&self) -> Option<&'a TokenTree> {
        self.tokens.get(self.position)
    }

    fn is_punct(&self, offset: usize, c: char) -> bool {
        self.tokens.get(self.position + offset) == Some(&TokenTree::Punct(c))
    }

    fn list(&self, stream: &'a [TokenTree]) -> Vec<Built> {
        let mut inner = Constructors { tokens: stream, position: 0, builders: self.builders };
        let mut items = Vec::new();
        while inner.peek().is_some() {
            items.push(inner.value());
            while inner.is_punct(0, ',') {
                inner.position += 1;
            }
        }
        items
    }

    fn fields(&self, stream: &'a [TokenTree]) -> Vec<(String, Built)> {
        let mut inner = Constructors { tokens: stream, position: 0, builders: self.builders };
        let mut fields = Vec::new();
        while let Some(token) = inner.peek() {
            if inner.is_punct(0, '.') {
                break;
            }
            let name = token.to_text();
            inner.position += 1;
            assert!(inner.is_punct(0, ':'));
            inner.position += 1;
            fields.push((name, inner.value()));
            while inner.is_punct(0, ',') {
                inner.position += 1;
            }
        }
        fields
    }

    fn value(&mut self) -> Built {
        match self.peek().expect("a value") {
            TokenTree::Literal(text) if text.starts_with('"') => {
                self.position += 1;
                assert!(self.is_punct(0, '.'));
                assert_eq!(self.tokens[self.position + 1].to_text(), "to_owned");
                self.position += 3;
                Built::Text(text[1..text.len() - 1].to_owned())
            }
            TokenTree::Literal(text) => {
                self.position += 1;
                Built::Number(text.clone())
            }
            TokenTree::Group(group) => {
                self.position += 1;
                Built::Sequence(self.list(&group.stream))
            }
            TokenTree::Ident(_) => self.constructed(),
            other => panic!("no value: {:?}", other),
        }
    }

    fn constructed(&mut self) -> Built {
        let mut path = Vec::new();
        loop {
            path.push(self.tokens[self.position].to_text());
            self.position += 1;
            if self.is_punct(0, ':') && self.is_punct(1, ':') {
                self.position += 2;
            } else {
                break;
            }
        }
        let name = path.last().unwrap().clone();
        let owner = if path.len() > 1 { path[path.len() - 2].clone() } else { String::new() };
        if name == "vec" {
            assert!(self.is_punct(0, '!'));
            let group = match &self.tokens[self.position + 1] {
                TokenTree::Group(group) => group,
                other => panic!("no elements: {:?}", other),
            };
            self.position += 2;
            let semicolon = group.stream.iter().position(|token| token == &TokenTree::Punct(';'));
            return match semicolon {
                Some(at) if at + 2 == group.stream.len() => {
                    let element = self.list(&group.stream[..at]).remove(0);
                    let count: usize = group.stream[at + 1].to_text().parse().unwrap();
                    Built::Sequence(vec![element; count])
                }
                _ => Built::Sequence(self.list(&group.stream)),
            };
        }
        match self.peek() {
            Some(TokenTree::Group(group)) if group.delimiter == Delimiter::Parenthesis => {
                self.position += 1;
                let arguments = self.list(&group.stream);
                self.called(&owner, &name, arguments)
            }
            Some(TokenTree::Group(group)) if group.delimiter == Delimiter::Brace => {
                self.position += 1;
                let fields = self.fields(&group.stream);
                self.filled(&name, fields)
            }
            _ => match name.as_str() {
                "true" => Built::Flag(true),
                "false" => Built::Flag(false),
                "None" => Built::Optional(None),
                other => panic!("no constant: {}", other),
            },
        }
    }

    fn called(&self, owner: &str, name: &str, mut arguments: Vec<Built>) -> Built {
        let mut next = || arguments.remove(0);
        match (owner, name) {
            ("Box", "new") => next(),
            (_, "Some") => Built::Optional(Some(Box::new(next()))),
            ("Integer", "I32") => match next() {
                Built::Number(text) => Built::Integer(Integer::I32(text.parse().unwrap())),
                other => panic!("no number: {:?}", other),
            },
            ("Expression", "Integer") => match next() {
                Built::Integer(integer) => Built::Expression(Expression::Integer(integer)),
                other => panic!("no integer: {:?}", other),
            },
            ("Expression", "Bool") => match next() {
                Built::Flag(flag) => Built::Expression(Expression::Bool(flag)),
                other => panic!("no flag: {:?}", other),
            },
            ("Reference", "Variable") => Built::Reference(Reference::Variable(next().text())),
            ("Expression", "Reference") => match next() {
                Built::Reference(reference) => Built::Expression(Expression::Reference(reference)),
                other => panic!("no reference: {:?}", other),
            },
            ("Expression", "IndexedAccessExpression") => match next() {
                Built::Indexed(access) => {
                    Built::Expression(Expression::IndexedAccessExpression(access))
                }
                other => panic!("no access: {:?}", other),
            },
            ("Expression", "Operation") => match next() {
                Built::Operation(operation) => {
                    Built::Expression(Expression::Operation(Box::new(operation)))
                }
                other => panic!("no operation: {:?}", other),
            },
            ("Operation", kind) => {
                let lhs = next().expression();
                let rhs = next().expression();
                Built::Operation(match kind {
                    "Add" => Operation::Add(lhs, rhs),
                    "Sub" => Operation::Sub(lhs, rhs),
                    "Mul" => Operation::Mul(lhs, rhs),
                    "Div" => Operation::Div(lhs, rhs),
                    "BitAnd" => Operation::BitAnd(lhs, rhs),
                    "BitOr" => Operation::BitOr(lhs, rhs),
                    "And" => Operation::And(lhs, rhs),
                    "Or" => Operation::Or(lhs, rhs),
                    "Eq" => Operation::Eq(lhs, rhs),
                    "Ne" => Operation::Ne(lhs, rhs),
                    "Lt" => Operation::Lt(lhs, rhs),
                    "Lte" => Operation::Lte(lhs, rhs),
                    "Gt" => Operation::Gt(lhs, rhs),
                    "Gte" => Operation::Gte(lhs, rhs),
                    other => panic!("no operator: {}", other),
                })
            }
            ("Expression", "Vector") => Built::Expression(Expression::Vector(
                next().sequence().into_iter().map(Built::expression).collect(),
            )),
            ("Expression", "Block") => match next() {
                Built::Block(block) => Built::Expression(Expression::Block(Box::new(block))),
                other => panic!("no block: {:?}", other),
            },
            ("Condition", "If") => match next() {
                Built::If(condition) => Built::Condition(Condition::If(condition)),
                other => panic!("no conditional: {:?}", other),
            },
            ("Expression", "Condition") => match next() {
                Built::Condition(condition) => {
                    Built::Expression(Expression::Condition(Box::new(condition)))
                }
                other => panic!("no condition: {:?}", other),
            },
            ("Loop", "RangedFor") => match next() {
                Built::For(repetition) => Built::Loop(Loop::RangedFor(repetition)),
                other => panic!("no loop: {:?}", other),
            },
            ("Loop", "While") => match next() {
                Built::While(repetition) => Built::Loop(Loop::While(repetition)),
                other => panic!("no loop: {:?}", other),
            },
            ("Expression", "Loop") => match next() {
                Built::Loop(repetition) => Built::Expression(Expression::Loop(Box::new(repetition))),
                other => panic!("no loop: {:?}", other),
            },
            ("Expression", "FunctionCall") => match next() {
                Built::Call(call) => Built::Expression(Expression::FunctionCall(call)),
                other => panic!("no call: {:?}", other),
            },
            ("FunctionBuilder", "new") => match next() {
                Built::Function(function) => Built::Builder(FunctionBuilder::new(function)),
                other => panic!("no function: {:?}", other),
            },
            ("Statement", "Assignment") => match (next(), next()) {
                (Built::Reference(reference), Built::Expression(expression)) => {
                    Built::Statement(Statement::Assignment(reference, expression))
                }
                other => panic!("no assignment: {:?}", other),
            },
            ("Statement", "IndexedAssigment") => match (next(), next()) {
                (Built::Indexed(access), Built::Expression(expression)) => {
                    Built::Statement(Statement::IndexedAssigment(access, expression))
                }
                other => panic!("no assignment: {:?}", other),
            },
            ("Statement", "Expression") => {
                Built::Statement(Statement::Expression(next().expression()))
            }
            ("Function", "new") => {
                let args = next().sequence().into_iter().map(Built::text).collect();
                let statements = next().statements();
                match next() {
                    Built::Contracts(contracts) => {
                        Built::Function(Function::new(args, statements, contracts))
                    }
                    other => panic!("no contracts: {:?}", other),
                }
            }
            ("ContractMap", "from") => Built::Contracts(ContractMap::from(
                next()
                    .sequence()
                    .into_iter()
                    .map(|entry| match entry.sequence().as_slice() {
                        [Built::Text(tag), Built::Contract(contract)] => {
                            (tag.clone(), contract.clone())
                        }
                        other => panic!("no entry: {:?}", other),
                    })
                    .collect::<Vec<_>>(),
            )),
            (_, builder) if builder.ends_with("__function_builder") => {
                let wanted = &builder[..builder.len() - "__function_builder".len()];
                match self.builders.iter().find(|(name, _)| *name == wanted) {
                    Some((_, function)) => Built::Function(function.clone()),
                    None => panic!("no builder: {}", wanted),
                }
            }
            other => panic!("no constructor: {:?}", other),
        }
    }

    fn filled(&self, name: &str, fields: Vec<(String, Built)>) -> Built {
        let mut fields = fields;
        let mut take = |wanted: &str| {
            let at = fields.iter().position(|(name, _)| name == wanted);
            at.map(|at| fields.remove(at).1)
        };
        match name {
            "IndexedAccessExpression" => Built::Indexed(IndexedAccessExpression {
                variable: take("variable").unwrap().text(),
                index: Box::new(take("index").unwrap().expression()),
            }),
            "Block" => Built::Block(Block { statements: take("statements").unwrap().statements() }),
            "If" => Built::If(If {
                statements: take("statements").unwrap().statements(),
                condition: take("condition").unwrap().expression(),
                else_clause: match take("else_clause").unwrap() {
                    Built::Optional(clause) => clause.map(|clause| clause.expression()),
                    other => panic!("no else clause: {:?}", other),
                },
            }),
            "RangedForLoop" => Built::For(RangedForLoop {
                tag: take("tag").unwrap().optional_text(),
                statements: take("statements").unwrap().statements(),
                variable: match take("variable").unwrap() {
                    Built::Reference(reference) => reference,
                    other => panic!("no variable: {:?}", other),
                },
                start: take("start").unwrap().expression(),
                end: take("end").unwrap().expression(),
            }),
            "WhileLoop" => Built::While(WhileLoop {
                tag: take("tag").unwrap().optional_text(),
                statements: take("statements").unwrap().statements(),
                condition: take("condition").unwrap().expression(),
            }),
            "FunctionCall" => Built::Call(FunctionCall {
                builder: match take("builder").unwrap() {
                    Built::Builder(builder) => builder,
                    other => panic!("no builder: {:?}", other),
                },
                params: take("params")
                    .unwrap()
                    .sequence()
                    .into_iter()
                    .map(Built::expression)
                    .collect(),
            }),
            "Contract" => {
                let mut condition = |slot: &str| {
                    take(slot).map(|found| match found {
                        Built::Optional(Some(pair)) => match pair.sequence().as_slice() {
                            [Built::Text(name), Built::Builder(builder)] => {
                                (name.clone(), builder.clone())
                            }
                            other => panic!("no condition: {:?}", other),
                        },
                        other => panic!("no condition: {:?}", other),
                    })
                };
                Built::Contract(Contract {
                    pre_condition: condition("pre_condition"),
                    maintenance_condition: condition("maintenance_condition"),
                    post_condition: condition("post_condition"),
                })
            }
            other => panic!("no structure: {}", other),
        }
    }
}

/// Lowers the source of a function, with the attribute payload that declares
/// its contracts, and builds the function from the constructor text that the
/// lowering gives; `builders` are the functions that the text may name.
fn lowered(attributes: &str, source: &str, builders: &Builders) -> Function {
    let text = define_function_builder(&tokens(source), &tokens(attributes)).unwrap();
    let emitted = tokens(&text);
    let body = emitted
        .iter()
        .find_map(|token| match token {
            TokenTree::Group(group) if group.delimiter == Delimiter::Brace => Some(group),
            _ => None,
        })
        .expect("the body of the builder");
    let mut constructors = Constructors { tokens: &body.stream, position: 0, builders };
    match constructors.value() {
        Built::Function(function) => function,
        other => panic!("no function: {:?}", other),
    }
}

#[test]
fn operations_test_addition_test() {
    fn addition() -> i32 {
        let mut a = 1;
        a = a + 2;
        a
    }

    fn addition__function_builder() -> Function {
        lowered(
            "",
            "fn addition() -> i32 {
        let mut a = 1;
        a = a + 2;
        a
    }",
            &vec![],
        )
    }

    let expression = Interpreter::execute_function(addition__function_builder()).unwrap();

    assert_eq!(addition(), 3);
    assert_eq!(expression, Expression::Integer(3.into()));
}

#[test]
fn operations_test_substraction_test() {
    fn substraction() -> i32 {
        let mut a = 6;
        a = a - 2;
        a
    }

    fn substraction__function_builder() -> Function {
        lowered(
            "",
            "fn substraction() -> i32 {
        let mut a = 6;
        a = a - 2;
        a
    }",
            &vec![],
        )
    }

    let expression = Interpreter::execute_function(substraction__function_builder()).unwrap();

    assert_eq!(substraction(), 4);
    assert_eq!(expression, Expression::Integer(4.into()));
}

#[test]
fn operations_test_multiplication_test() {
    fn multiplication() -> i32 {
        let mut a = 3;
        a = a * 2;
        a
    }

    fn multiplication__function_builder() -> Function {
        lowered(
            "",
            "fn multiplication() -> i32 {
        let mut a = 3;
        a = a * 2;
        a
    }",
            &vec![],
        )
    }

    let expression = Interpreter::execute_function(multiplication__function_builder()).unwrap();

    assert_eq!(multiplication(), 6);
    assert_eq!(expression, Expression::Integer(6.into()));
}

#[test]
fn operations_test_division_test() {
    fn division() -> i32 {
        let mut a = 6;
        a = a / 2;
        a
    }

    fn division__function_builder() -> Function {
        lowered(
            "",
            "fn division() -> i32 {
        let mut a = 6;
        a = a / 2;
        a
    }",
            &vec![],
        )
    }

    let expression = Interpreter::execute_function(division__function_builder()).unwrap();

    assert_eq!(division(), 3);
    assert_eq!(expression, Expression::Integer(3.into()));
}

#[test]
fn operations_test_parametherized_expression_test() {
    fn parametherized_expression() -> i32 {
        let mut a = 6;
        a = 3 + ((a / 2) * 2) + 3;
        a
    }

    fn parametherized_expression__function_builder() -> Function {
        lowered(
            "",
            "fn parametherized_expression() -> i32 {
        let mut a = 6;
        a = 3 + ((a / 2) * 2) + 3;
        a
    }",
            &vec![],
        )
    }

    let expression = Interpreter::execute_function(parametherized_expression__function_builder()).unwrap();

    assert_eq!(parametherized_expression(), 12);
    assert_eq!(expression, Expression::Integer(12.into()));
}

#[test]
fn operations_tests_addition_test() {
    fn addition() -> i32 {
        let mut a = 1;
        a = a + 2;
        a
    }

    fn addition__function_builder() -> Function {
        lowered(
            "",
            "fn addition() -> i32 {
        let mut a = 1;
        a = a + 2;
        a
    }",
            &vec![],
        )
    }

    let expression = Interpreter::execute_function(addition__function_builder()).unwrap();

    assert_eq!(addition(), 3);
    assert_eq!(expression, 3.into());
}

#[test]
fn operations_tests_substraction_test() {
    fn substraction() -> i32 {
        let mut a = 6;
        a = a - 2;
        a
    }

    fn substraction__function_builder() -> Function {
        lowered(
            "",
            "fn substraction() -> i32 {
        let mut a = 6;
        a = a - 2;
        a
    }",
            &vec![],
        )
    }

    let expression = Interpreter::execute_function(substraction__function_builder()).unwrap();

    assert_eq!(substraction(), 4);
    assert_eq!(expression, 4.into());
}

#[test]
fn operations_tests_multiplication_test() {
    fn multiplication() -> i32 {
        let mut a = 3;
        a = a * 2;
        a
    }

    fn multiplication__function_builder() -> Function {
        lowered(
            "",
            "fn multiplication() -> i32 {
        let mut a = 3;
        a = a * 2;
        a
    }",
            &vec![],
        )
    }

    let expression = Interpreter::execute_function(multiplication__function_builder()).unwrap();

    assert_eq!(multiplication(), 6);
    assert_eq!(expression, 6.into());
}

#[test]
fn operations_tests_division_test() {
    fn division() -> i32 {
        let mut a = 6;
        a = a / 2;
        a
    }

    fn division__function_builder() -> Function {
        lowered(
            "",
            "fn division() -> i32 {
        let mut a = 6;
        a = a / 2;
        a
    }",
            &vec![],
        )
    }

    let expression = Interpreter::execute_function(division__function_builder()).unwrap();

    assert_eq!(division(), 3);
    assert_eq!(expression, 3.into());
}

#[test]
fn operations_tests_parametherized_expression_test() {
    fn parametherized_expression() -> i32 {
        let mut a = 6;
        a = 3 + ((a / 2) * 2) + 3;
        a
    }

    fn parametherized_expression__function_builder() -> Function {
        lowered(
            "",
            "fn parametherized_expression() -> i32 {
        let mut a = 6;
        a = 3 + ((a / 2) * 2) + 3;
        a
    }",
            &vec![],
        )
    }

    let expression = Interpreter::execute_function(parametherized_expression__function_builder()).unwrap();

    assert_eq!(parametherized_expression(), 12);
    assert_eq!(expression, 12.into());
}

#[test]
fn operator_precedence_test() {
    fn operator_precedence() -> i32 {
        let mut a = 6;
        a = 3 + a / 2 * 2 + 3;
        a
    }

    fn operator_precedence__function_builder() -> Function {
        lowered(
            "",
            "fn operator_precedence() -> i32 {
        let mut a = 6;
        a = 3 + a / 2 * 2 + 3;
        a
    }",
            &vec![],
        )
    }

    let expression = Interpreter::execute_function(operator_precedence__function_builder()).unwrap();

    assert_eq!(operator_precedence(), 12);
    assert_eq!(expression, 12.into());
}

#[test]
fn boolean_logic_test() {
    fn boolean_logic_true() -> bool {
        let a = 6;
        let eq = a == 6;
        let ne = a != 5;
        let cmp = 23 > 6 && 11 < 23 && 5 <= 6 && 5 >= 3;

        (eq && ne && cmp) || false
    }

    fn boolean_logic_true__function_builder() -> Function {
        lowered(
            "",
            "fn boolean_logic_true() -> bool {
        let a = 6;
        let eq = a == 6;
        let ne = a != 5;
        let cmp = 23 > 6 && 11 < 23 && 5 <= 6 && 5 >= 3;

        (eq && ne && cmp) || false
    }",
            &vec![],
        )
    }

    let expression = Interpreter::execute_function(boolean_logic_true__function_builder()).unwrap();

    assert_eq!(boolean_logic_true(), true);
    assert_eq!(expression, Expression::Bool(true));

    fn boolean_logic_false() -> bool {
        let a = 6;
        let eq = a == 6;
        let ne = a != 6;
        let cmp = 23 > 6 && 11 < 23 && 5 <= 6 && 5 >= 3;

        (eq && ne && cmp) || false
    }

    fn boolean_logic_false__function_builder() -> Function {
        lowered(
            "",
            "fn boolean_logic_false() -> bool {
        let a = 6;
        let eq = a == 6;
        let ne = a != 6;
        let cmp = 23 > 6 && 11 < 23 && 5 <= 6 && 5 >= 3;

        (eq && ne && cmp) || false
    }",
            &vec![],
        )
    }

    let expression =
        Interpreter::execute_function(boolean_logic_false__function_builder()).unwrap();

    assert_eq!(boolean_logic_false(), false);
    assert_eq!(expression, Expression::Bool(false));
}

#[test]
pub fn test_block() {
    fn block() -> usize {
        let result = {
            let a = 1;
            a + 2
        };

        result
    }

    fn block__function_builder() -> Function {
        lowered(
            "",
            "fn block() -> usize {
        let result = {
            let a = 1;
            a + 2
        };

        result
    }",
            &vec![],
        )
    }

    let expression = Interpreter::execute_function(block__function_builder()).unwrap();

    assert_eq!(block(), 3);
    assert_eq!(expression, 3.into());
}

#[test]
pub fn test_block_scope() {
    #[allow(unused_assignments)]
    fn block() -> usize {
        let result = 5;

        {
            let mut _result = 1;
            _result = 2;
        }

        result
    }

    fn block__function_builder() -> Function {
        lowered(
            "",
            "fn block() -> usize {
        let result = 5;

        {
            let mut _result = 1;
            _result = 2;
        }

        result
    }",
            &vec![],
        )
    }

    let expression = Interpreter::execute_function(block__function_builder()).unwrap();

    assert_eq!(block(), 5);
    assert_eq!(expression, 5.into());
}

#[test]
pub fn test_basic_if_condition() {
    fn if_condition() -> usize {
        let mut result = 1;

        if result < 10 {
            result = result + 1;
        }

        result
    }

    fn if_condition__function_builder() -> Function {
        lowered(
            "",
            "fn if_condition() -> usize {
        let mut result = 1;

        if result < 10 {
            result = result + 1;
        }

        result
    }",
            &vec![],
        )
    }

    let expression = Interpreter::execute_function(if_condition__function_builder()).unwrap();

    assert_eq!(if_condition(), 2);
    assert_eq!(expression, 2.into());
}

#[test]
pub fn test_if_else_condition() {
    fn if_else_condition() -> usize {
        let mut result = 1;

        if result == 2 {
            result = result + 1;
        } else {
            result = result + 2;
        }

        result
    }

    fn if_else_condition__function_builder() -> Function {
        lowered(
            "",
            "fn if_else_condition() -> usize {
        let mut result = 1;

        if result == 2 {
            result = result + 1;
        } else {
            result = result + 2;
        }

        result
    }",
            &vec![],
        )
    }

    let expression = Interpreter::execute_function(if_else_condition__function_builder()).unwrap();

    assert_eq!(if_else_condition(), 3);
    assert_eq!(expression, 3.into());
}

#[test]
pub fn test_else_if_condition() {
    fn else_if_condition() -> usize {
        let mut result = 1;

        if result == 2 {
            result = result + 1;
        } else if result == 1 {
            result = result + 2;
        } else {
            result = 10;
        }

        result
    }

    fn else_if_condition__function_builder() -> Function {
        lowered(
            "",
            "fn else_if_condition() -> usize {
        let mut result = 1;

        if result == 2 {
            result = result + 1;
        } else if result == 1 {
            result = result + 2;
        } else {
            result = 10;
        }

        result
    }",
            &vec![],
        )
    }

    let expression = Interpreter::execute_function(else_if_condition__function_builder()).unwrap();

    assert_eq!(else_if_condition(), 3);
    assert_eq!(expression, 3.into());
}

#[test]
pub fn test_vector() {
    fn vector() -> usize {
        let mut vector = vec![1, 2, 3];
        for i in 0..3 {
            vector[i] = (i + 1) * 2;
        }
        vector[2]
    }

    fn vector__function_builder() -> Function {
        lowered(
            "",
            "fn vector() -> usize {
        let mut vector = vec![1, 2, 3];
        for i in 0..3 {
            vector[i] = (i + 1) * 2;
        }
        vector[2]
    }",
            &vec![],
        )
    }

    let expression = Interpreter::execute_function(vector__function_builder()).unwrap();

    assert_eq!(vector(), 6);
    assert_eq!(expression, 6i64.into());
}

#[test]
pub fn test_vector_copy() {
    fn vector_copy() -> usize {
        let vector = vec![1, 2, 3];
        let mut other_vector = vec![0; 3];
        for i in 0..3 {
            other_vector[i] = vector[i] * 2;
        }
        other_vector[2]
    }

    fn vector_copy__function_builder() -> Function {
        lowered(
            "",
            "fn vector_copy() -> usize {
        let vector = vec![1, 2, 3];
        let mut other_vector = vec![0; 3];
        for i in 0..3 {
            other_vector[i] = vector[i] * 2;
        }
        other_vector[2]
    }",
            &vec![],
        )
    }

    let expression = Interpreter::execute_function(vector_copy__function_builder()).unwrap();

    assert_eq!(vector_copy(), 6);
    assert_eq!(expression, 6.into());
}

#[test]
pub fn test_function_call() {
    fn sum(a: i32, b: i32) -> i32 {
        a + b
    }

    fn sum__function_builder() -> Function {
        lowered(
            "",
            "fn sum(a: i32, b: i32) -> i32 {
        a + b
    }",
            &vec![],
        )
    }

    fn function_call() -> i32 {
        let a = sum(1, 2);
        sum(a, 2)
    }

    fn function_call__function_builder() -> Function {
        lowered(
            "",
            "fn function_call() -> i32 {
        let a = sum(1, 2);
        sum(a, 2)
    }",
            &vec![("sum", sum__function_builder())],
        )
    }

    let expression = Interpreter::execute_function(function_call__function_builder()).unwrap();

    assert_eq!(function_call(), 5);
    assert_eq!(expression, 5.into());
}

#[test]
pub fn test_for_loop() {
    fn for_loop() -> usize {
        let mut acc = 10;

        for i in 1..10 {
            acc = acc + i;
        }

        acc
    }

    fn for_loop__function_builder() -> Function {
        lowered(
            "",
            "fn for_loop() -> usize {
        let mut acc = 10;

        for i in 1..10 {
            acc = acc + i;
        }

        acc
    }",
            &vec![],
        )
    }

    let expression = Interpreter::execute_function(for_loop__function_builder()).unwrap();

    assert_eq!(for_loop(), 55);
    assert_eq!(expression, Expression::Integer(55i64.into()));
}

#[test]
pub fn test_for_loop_variable_bounds() {
    fn for_loop() -> usize {
        let mut acc = 10;
        let start = 1;
        let end = 10;

        for i in start..end {
            acc = acc + i;
        }

        acc
    }

    fn for_loop__function_builder() -> Function {
        lowered(
            "",
            "fn for_loop() -> usize {
        let mut acc = 10;
        let start = 1;
        let end = 10;

        for i in start..end {
            acc = acc + i;
        }

        acc
    }",
            &vec![],
        )
    }

    let expression = Interpreter::execute_function(for_loop__function_builder()).unwrap();

    assert_eq!(for_loop(), 55);
    assert_eq!(expression, Expression::Integer(55i64.into()));
}

#[test]
pub fn test_for_loop_variable_reassignment() {
    #[allow(unused_assignments)]
    #[allow(unused_variables)]
    fn for_loop() -> usize {
        let i = 1;

        for mut i in 1..10 {
            i = i * 2;
        }

        i
    }

    fn for_loop__function_builder() -> Function {
        lowered(
            "",
            "fn for_loop() -> usize {
        let i = 1;

        for mut i in 1..10 {
            i = i * 2;
        }

        i
    }",
            &vec![],
        )
    }

    let expression = Interpreter::execute_function(for_loop__function_builder()).unwrap();

    assert_eq!(for_loop(), 1);
    assert_eq!(expression, Expression::Integer(1.into()));
}

#[test]
pub fn test_while_loop() {
    fn while_loop() -> usize {
        let mut acc = 1;

        while acc < 10 {
            acc = acc + 1;
        }

        acc
    }

    fn while_loop__function_builder() -> Function {
        lowered(
            "",
            "fn while_loop() -> usize {
        let mut acc = 1;

        while acc < 10 {
            acc = acc + 1;
        }

        acc
    }",
            &vec![],
        )
    }

    let expression = Interpreter::execute_function(while_loop__function_builder()).unwrap();

    assert_eq!(while_loop(), 10);
    assert_eq!(expression, Expression::Integer(10.into()));
}

fn insertion_sort_pre_condition__function_builder() -> Function {
    lowered("", "fn insertion_sort_pre_condition() -> bool { sorted == 1 }", &vec![])
}

fn insertion_sort_maintenance_condition__function_builder() -> Function {
    lowered(
        "",
        "fn insertion_sort_maintenance_condition() -> bool {
    let mut valid = true;

    for j in 1..sorted {
        if vector[j - 1] > vector[j] {
            valid = false;
        }
    }

    valid
}",
        &vec![],
    )
}

fn insertion_sort_post_condition__function_builder() -> Function {
    function(&[], vec![Statement::Expression(operation(Operation::Eq(
        variable("sorted"),
        length_of("vector"),
    )))])
}

fn insertion_sort__function_builder() -> Function {
    let body = lowered(
        "main: {
        pre_condition: insertion_sort_pre_condition,
        post_condition: insertion_sort_post_condition,
        maintenance_condition: insertion_sort_maintenance_condition
    }",
        "fn insertion_sort(vector: usize) -> usize {
    let mut sorted = 1;
    'main: for i in 1..length {
        let key = vector[i];
        let mut j = i - 1;

        while j > 0 && vector[j] > key {
            vector[j + 1] = vector[j];
            j = j - 1;
        }

        vector[j + 1] = key;
        sorted = i + 1;
    }

    vector
}",
        &vec![
            ("insertion_sort_pre_condition", insertion_sort_pre_condition__function_builder()),
            ("insertion_sort_post_condition", insertion_sort_post_condition__function_builder()),
            (
                "insertion_sort_maintenance_condition",
                insertion_sort_maintenance_condition__function_builder(),
            ),
        ],
    );
    let mut statements = vec![assignment("length", length_of("vector"))];
    statements.extend(body.statements.iter().cloned());
    Function::new(body.args.clone(), statements, body.contracts.clone())
}

fn insertion_sort<T>(mut vector: Vec<T>) -> Vec<T>
where
    T: PartialEq + PartialOrd + Copy,
{
    for i in 1..vector.len() {
        let key = vector[i];
        let mut j = i - 1;

        while j > 0 && vector[j] > key {
            vector[j + 1] = vector[j];
            j = j - 1;
        }

        vector[j + 1] = key;
    }

    vector
}

#[test]
pub fn test_insertion_sort() {
    let expression = Interpreter::execute_function_with_args(
        insertion_sort__function_builder(),
        vec![vec![3usize, 12, 5, 6].into()],
    )
    .unwrap();

    assert_eq!(insertion_sort(vec![3, 12, 5, 6]), vec![3, 5, 6, 12]);
    assert_eq!(expression, vec![3usize, 5, 6, 12].into());
}

#[test]
fn a_broken_sort_fails_its_maintenance_condition() {
    let sound = insertion_sort__function_builder();
    let mut statements = sound.statements.clone();
    statements.insert(
        2,
        Statement::IndexedAssigment(indexed("vector", number(1)), Expression::Integer(Integer::Usize(0))),
    );
    statements.swap(1, 2);
    let broken = Function::new(sound.args.clone(), statements, sound.contracts.clone());
    let vector: Expression = vec![3usize, 12, 5, 6].into();
    assert_eq!(
        Interpreter::execute_function_with_args(broken, vec![vector]),
        Err(EvaluationError::ContractFailed(
            "main".to_owned(),
            "insertion_sort_maintenance_condition".to_owned()
        ))
    );
}

#[test]
fn a_tagged_while_loop_is_lowered_with_its_contract() {
    fn countdown() -> i32 {
        let mut left = 3;
        let mut turns = 0;

        while left > 0 {
            left = left - 1;
            turns = turns + 1;
        }

        turns
    }

    let sum_is_three = lowered("", "fn sum_is_three() -> bool { left + turns == 3 }", &vec![]);
    let lowered_countdown = lowered(
        "down: { pre_condition: sum_is_three, maintenance_condition: sum_is_three, post_condition: sum_is_three }",
        "fn countdown() -> i32 {
        let mut left = 3;
        let mut turns = 0;

        'down: while left > 0 {
            left = left - 1;
            turns = turns + 1;
        }

        turns
    }",
        &vec![("sum_is_three", sum_is_three.clone())],
    );
    assert_eq!(countdown(), 3);
    assert_eq!(Interpreter::execute_function(lowered_countdown), Ok(3.into()));

    let broken = lowered(
        "down: { maintenance_condition: sum_is_three }",
        "fn countdown() -> i32 {
        let mut left = 3;
        let mut turns = 0;

        'down: while left > 0 {
            left = left - 1;
        }

        turns
    }",
        &vec![("sum_is_three", sum_is_three)],
    );
    assert_eq!(
        Interpreter::execute_function(broken),
        Err(EvaluationError::ContractFailed("down".to_owned(), "sum_is_three".to_owned()))
    );
}
