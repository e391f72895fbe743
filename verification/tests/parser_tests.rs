use rudin::handling::{Message, MessageKind};
use rudin::internals::types::Types;
use rudin::internals::Position;
use rudin::lexer::lex;
use rudin::lexer::tokens::{Token, TokenKind};
use rudin::parser::parse;
use rudin::parser::statements::{Expression, FuncParam, Statement};
use rudin::parser::Parser;

fn token(kind: TokenKind, column: usize, value: &str) -> Token {
    Token::new(kind, Position::new(0, column), value.to_string())
}

fn parse_source(source: &str) -> (Vec<Statement>, Vec<Message>) {
    let (tokens, diagnostics) = lex(source);
    assert!(diagnostics.is_empty());
    let (ast, output) = parse(tokens);
    match ast {
        Statement::Program { start, body } => {
            assert_eq!(start, Position::new(0, 0));
            (*body, output)
        }
        other => panic!("unexpected root {:?}", other),
    }
}

fn value_of(source: &str) -> Expression {
    let (mut body, output) = parse_source(source);
    assert!(output.is_empty(), "{:?}", output);
    assert_eq!(body.len(), 1);
    match body.remove(0) {
        Statement::VariableDeclaration { value: Some(value), .. } => value,
        other => panic!("unexpected statement {:?}", other),
    }
}

fn number(text: &str) -> Expression {
    Expression::Literal { ty: TokenKind::Number, value: text.to_string() }
}

fn name(text: &str) -> Expression {
    Expression::Identifier(text.to_string())
}

fn binary(operator: TokenKind, left: Expression, right: Expression) -> Expression {
    Expression::Binary { operator, left: Box::new(left), right: Box::new(right) }
}

fn logical(operator: TokenKind, left: Expression, right: Expression) -> Expression {
    Expression::Logical { operator, left: Box::new(left), right: Box::new(right) }
}

fn only_message(output: &Vec<Message>) -> &Message {
    assert_eq!(output.len(), 1, "{:?}", output);
    assert_eq!(output[0].kind, MessageKind::CodeError);
    &output[0]
}

#[test]
fn empty_token_stream_gives_empty_program() {
    let mut parser = Parser::new(vec![token(TokenKind::Eof, 1, "EOF")]);
    parser.parse();
    assert!(parser.output.is_empty());
    assert_eq!(
        parser.ast,
        Statement::Program { start: Position::new(0, 0), body: Box::new(vec![]) }
    );
}

#[test]
fn bare_declaration_has_no_value() {
    let tokens = vec![
        token(TokenKind::KwVar, 0, "var"),
        token(TokenKind::Identifier, 4, "x"),
        token(TokenKind::Colon, 5, ":"),
        token(TokenKind::TyInt, 7, "int"),
        token(TokenKind::Semicolon, 10, ";"),
        token(TokenKind::Eof, 11, "EOF"),
    ];
    let mut parser = Parser::new(tokens);
    parser.parse();
    assert!(parser.output.is_empty());
    assert_eq!(
        parser.ast,
        Statement::Program {
            start: Position::new(0, 0),
            body: Box::new(vec![Statement::VariableDeclaration {
                start: Position::new(0, 0),
                name: "x".to_string(),
                ty: Types::Int,
                value: None,
            }]),
        }
    );
}

#[test]
fn multiplication_binds_tighter_than_addition() {
    let parsed = value_of("var x: int = 1 + 2 * 3;");
    let expected = binary(
        TokenKind::OpAdd,
        number("1"),
        binary(TokenKind::OpMul, number("2"), number("3")),
    );
    assert_eq!(parsed, expected);
    let wrong = binary(
        TokenKind::OpMul,
        binary(TokenKind::OpAdd, number("1"), number("2")),
        number("3"),
    );
    assert_ne!(parsed, wrong);
}

#[test]
fn bare_expression_parses_by_precedence() {
    let (tokens, diagnostics) = lex("1 + 2 * 3");
    assert!(diagnostics.is_empty());
    let mut parser = Parser::new(tokens);
    let parsed = parser.parse_expression();
    assert!(parser.output.is_empty());
    assert_eq!(
        parsed,
        Some(binary(
            TokenKind::OpAdd,
            number("1"),
            binary(TokenKind::OpMul, number("2"), number("3")),
        ))
    );
}

#[test]
fn bare_expression_that_fails_adds_its_diagnostic() {
    let (tokens, _) = lex("1 + * 3");
    let mut parser = Parser::new(tokens);
    let parsed = parser.parse_expression();
    assert_eq!(parsed, None);
    assert_eq!(only_message(&parser.output).message, "Expected an expression but found *");
    assert_eq!(parser.output[0].position, Some(Position::new(0, 4)));
}

#[test]
fn precedence_on_a_bare_expression_token_stream() {
    let tokens = vec![
        token(TokenKind::KwConst, 0, "const"),
        token(TokenKind::Identifier, 6, "c"),
        token(TokenKind::Colon, 7, ":"),
        token(TokenKind::TyInt, 9, "int"),
        token(TokenKind::OpAssign, 13, "="),
        token(TokenKind::Number, 15, "1"),
        token(TokenKind::OpAdd, 17, "+"),
        token(TokenKind::Number, 19, "2"),
        token(TokenKind::OpMul, 21, "*"),
        token(TokenKind::Number, 23, "3"),
        token(TokenKind::Semicolon, 24, ";"),
        token(TokenKind::Eof, 25, "EOF"),
    ];
    let (ast, output) = parse(tokens);
    assert!(output.is_empty());
    assert_eq!(
        ast,
        Statement::Program {
            start: Position::new(0, 0),
            body: Box::new(vec![Statement::ConstantDeclaration {
                start: Position::new(0, 0),
                name: "c".to_string(),
                ty: Types::Int,
                value: binary(
                    TokenKind::OpAdd,
                    number("1"),
                    binary(TokenKind::OpMul, number("2"), number("3")),
                ),
            }]),
        }
    );
}

#[test]
fn operators_of_one_level_fold_to_the_left() {
    assert_eq!(
        value_of("var x: int = a - b - c;"),
        binary(TokenKind::OpSub, binary(TokenKind::OpSub, name("a"), name("b")), name("c"))
    );
    assert_eq!(
        value_of("var x: int = a / b % c;"),
        binary(TokenKind::OpMod, binary(TokenKind::OpDiv, name("a"), name("b")), name("c"))
    );
}

#[test]
fn all_levels_nest_in_order() {
    let parsed = value_of("var x: bool = a || b && c == d < e + f * g;");
    let expected = logical(
        TokenKind::OpOr,
        name("a"),
        logical(
            TokenKind::OpAnd,
            name("b"),
            logical(
                TokenKind::OpEq,
                name("c"),
                logical(
                    TokenKind::OpLt,
                    name("d"),
                    binary(
                        TokenKind::OpAdd,
                        name("e"),
                        binary(TokenKind::OpMul, name("f"), name("g")),
                    ),
                ),
            ),
        ),
    );
    assert_eq!(parsed, expected);
}

#[test]
fn word_operators_parse_like_symbols() {
    assert_eq!(
        value_of("var x: bool = a and b or not c;"),
        logical(
            TokenKind::OpOr,
            logical(TokenKind::OpAnd, name("a"), name("b")),
            Expression::Unary { operator: TokenKind::OpNot, operand: Box::new(name("c")) },
        )
    );
}

#[test]
fn unary_operators() {
    assert_eq!(value_of("var x: int = + a;"), name("a"));
    assert_eq!(
        value_of("var x: int = - a;"),
        Expression::Unary { operator: TokenKind::OpSub, operand: Box::new(name("a")) }
    );
    assert_eq!(
        value_of("var x: bool = !!a;"),
        Expression::Unary {
            operator: TokenKind::OpNot,
            operand: Box::new(Expression::Unary {
                operator: TokenKind::OpNot,
                operand: Box::new(name("a")),
            }),
        }
    );
}

#[test]
fn literals_keep_their_text() {
    assert_eq!(
        value_of("var s: str = \"hi\";"),
        Expression::Literal { ty: TokenKind::StringLiteral, value: "\"hi\"".to_string() }
    );
    assert_eq!(
        value_of("var c: char = 'c';"),
        Expression::Literal { ty: TokenKind::CharLiteral, value: "'c'".to_string() }
    );
    assert_eq!(
        value_of("var b: bool = true;"),
        Expression::Literal { ty: TokenKind::TyBool, value: "true".to_string() }
    );
    assert_eq!(
        value_of("var b: bool = false;"),
        Expression::Literal { ty: TokenKind::TyBool, value: "false".to_string() }
    );
}

#[test]
fn calls_with_and_without_arguments() {
    assert_eq!(
        value_of("var x: int = f();"),
        Expression::Call { name: "f".to_string(), arguments: None }
    );
    assert_eq!(
        value_of("var x: int = f(1, g(a), b + 2);"),
        Expression::Call {
            name: "f".to_string(),
            arguments: Some(Box::new(vec![
                number("1"),
                Expression::Call {
                    name: "g".to_string(),
                    arguments: Some(Box::new(vec![name("a")])),
                },
                binary(TokenKind::OpAdd, name("b"), number("2")),
            ])),
        }
    );
}

#[test]
fn call_without_closing_parenthesis() {
    let (body, output) = parse_source("var x: int = f(1, 2");
    assert!(body.is_empty());
    assert_eq!(only_message(&output).message, "Expected ',' or ')' but found EOF");
    let (_, output) = parse_source("var x: int = f(");
    assert_eq!(only_message(&output).message, "Expected ')' but found EOF");
}

#[test]
fn call_arguments_need_separators() {
    let (body, output) = parse_source("var x: int = f(a b);");
    assert!(body.is_empty());
    let message = only_message(&output);
    assert_eq!(message.message, "Expected ',' or ')' but found b");
    assert_eq!(message.position, Some(Position::new(0, 17)));
}

#[test]
fn prototype_has_no_body() {
    let (body, output) = parse_source("func f() -> int;");
    assert!(output.is_empty());
    assert_eq!(
        body,
        vec![Statement::FunctionDeclaration {
            start: Position::new(0, 0),
            name: "f".to_string(),
            ty: Types::Int,
            params: None,
            body: None,
        }]
    );
}

#[test]
fn definition_has_a_body() {
    let (body, output) = parse_source("func f() -> int { }");
    assert!(output.is_empty());
    assert_eq!(
        body,
        vec![Statement::FunctionDeclaration {
            start: Position::new(0, 0),
            name: "f".to_string(),
            ty: Types::Int,
            params: None,
            body: Some(Box::new(vec![])),
        }]
    );
}

#[test]
fn function_with_parameters_and_statements() {
    let source = "func add(a: int, b: Pair) -> void {\n  var s: int = a + b;\n  const k: int = 1;\n  print(s);\n  io::out::write(s, k);\n}";
    let (body, output) = parse_source(source);
    assert!(output.is_empty(), "{:?}", output);
    assert_eq!(
        body,
        vec![Statement::FunctionDeclaration {
            start: Position::new(0, 0),
            name: "add".to_string(),
            ty: Types::Void,
            params: Some(vec![
                FuncParam { name: "a".to_string(), ty: Types::Int },
                FuncParam { name: "b".to_string(), ty: Types::Custom("Pair".to_string()) },
            ]),
            body: Some(Box::new(vec![
                Statement::VariableDeclaration {
                    start: Position::new(1, 2),
                    name: "s".to_string(),
                    ty: Types::Int,
                    value: Some(binary(TokenKind::OpAdd, name("a"), name("b"))),
                },
                Statement::ConstantDeclaration {
                    start: Position::new(2, 2),
                    name: "k".to_string(),
                    ty: Types::Int,
                    value: number("1"),
                },
                Statement::FunctionCall {
                    start: Position::new(3, 2),
                    call: Expression::Call {
                        name: "print".to_string(),
                        arguments: Some(Box::new(vec![name("s")])),
                    },
                },
                Statement::NamespacePush {
                    start: Position::new(4, 2),
                    name: "io".to_string(),
                    push: Box::new(Statement::NamespacePush {
                        start: Position::new(4, 6),
                        name: "out".to_string(),
                        push: Box::new(Statement::FunctionCall {
                            start: Position::new(4, 11),
                            call: Expression::Call {
                                name: "write".to_string(),
                                arguments: Some(Box::new(vec![name("s"), name("k")])),
                            },
                        }),
                    }),
                },
            ])),
        }]
    );
}

#[test]
fn every_built_in_type_is_named_by_its_keyword() {
    let cases = vec![
        ("int", Types::Int),
        ("float", Types::Float),
        ("double", Types::Double),
        ("bool", Types::Bool),
        ("char", Types::Char),
        ("str", Types::String),
        ("void", Types::Void),
        ("Thing", Types::Custom("Thing".to_string())),
    ];
    for (text, expected) in cases {
        let (body, output) = parse_source(&format!("var x: {};", text));
        assert!(output.is_empty());
        match &body[0] {
            Statement::VariableDeclaration { ty, .. } => assert_eq!(*ty, expected),
            other => panic!("unexpected statement {:?}", other),
        }
    }
}

#[test]
fn first_error_stops_the_parse() {
    let (body, output) = parse_source("var ; const y: int = 1;");
    assert!(body.is_empty());
    let message = only_message(&output);
    assert_eq!(message.message, "Expected an identifier but found ;");
    assert_eq!(message.position, Some(Position::new(0, 4)));
}

#[test]
fn statements_before_the_error_are_kept() {
    let (body, output) = parse_source("const y: int = 1; var ; var z: int;");
    assert_eq!(body.len(), 1);
    assert_eq!(only_message(&output).message, "Expected an identifier but found ;");
}

#[test]
fn number_of_statements_is_number_of_declarations() {
    let source = "var a: int;\nconst b: int = 2;\nfunc f(x: int) -> int;\nfunc g() -> void { h(); }\nvar c: bool = a < b;";
    let (body, output) = parse_source(source);
    assert!(output.is_empty());
    assert_eq!(body.len(), 5);
}

#[test]
fn unexpected_token_at_top_level() {
    let (body, output) = parse_source("var a: int; 5");
    assert_eq!(body.len(), 1);
    let message = only_message(&output);
    assert_eq!(message.message, "Unexpected token: 5");
    assert_eq!(message.position, Some(Position::new(0, 12)));
}

#[test]
fn declaration_errors() {
    let cases = vec![
        ("var x int;", "Expected a colon but found int"),
        ("var x: ;", "Expected a type but found ;"),
        ("var x: int 5;", "Expected assignment operator or end of statement but found 5"),
        ("const x: int;", "Expected assignment operator or end of statement but found ;"),
        ("var x: int = ;", "Expected an expression but found ;"),
        ("var x: int = 5", "Expected end of statement but found EOF"),
        ("var x: int =", "Expected end of expression but found EOF"),
        ("var x: int = 1 +;", "Expected an expression but found ;"),
        ("var x: int = (1);", "Expected an expression but found ("),
        ("const 5", "Expected an identifier but found 5"),
    ];
    for (source, expected) in cases {
        let (body, output) = parse_source(source);
        assert!(body.is_empty(), "{}", source);
        assert_eq!(only_message(&output).message, expected, "{}", source);
    }
}

#[test]
fn function_errors() {
    let cases = vec![
        ("func 5", "Expected identifier but found 5"),
        ("func f -> int;", "Expected '(' but found ->"),
        ("func f(5) -> int;", "Expected Identifier but found 5"),
        ("func f(a) -> int;", "Expected ':' but found )"),
        ("func f(a: ) -> int;", "Expected a type but found )"),
        ("func f(a: int b) -> int;", "Expected ',' or ')' but found b"),
        ("func f(a: int,) -> int;", "Expected Identifier but found )"),
        ("func f() int;", "Expected \"->\" but found int"),
        ("func f() -> ;", "Expected a type but found ;"),
        ("func f() -> int", "Expected end of statement or code block but found EOF"),
        ("func f() -> int { ", "Expected end of block but found EOF"),
        ("func f() -> int { 5 }", "Expected a statement but found 5"),
        ("func f() -> int { x = 5; }", "Expected '::' or '(' but found ="),
        ("func f() -> int { a::5 }", "Expected an identifier but found 5"),
        ("func f() -> int { g() }", "Expected end of statement but found }"),
        ("func f() -> int { func g() -> int; }", "Expected a statement but found func"),
    ];
    for (source, expected) in cases {
        let (body, output) = parse_source(source);
        assert!(body.is_empty(), "{}", source);
        assert_eq!(only_message(&output).message, expected, "{}", source);
    }
}

#[test]
fn parser_goes_on_from_its_state() {
    let (tokens, _) = lex("var a: int; var b: int;");
    let mut parser = Parser::new(tokens);
    parser.parse();
    parser.parse();
    assert!(parser.output.is_empty());
    match &parser.ast {
        Statement::Program { body, .. } => assert_eq!(body.len(), 2),
        other => panic!("unexpected root {:?}", other),
    }
}

#[test]
fn copy_of_a_tree_is_equal_to_the_tree() {
    let source = "func add(a: int, b: Pair) -> void {\n  var s: int = -a + f(b, 1) * 2;\n  io::print(s);\n}\nconst k: bool = !true;";
    let (body, output) = parse_source(source);
    assert!(output.is_empty());
    assert_eq!(body.len(), 2);
    let tree = Statement::Program { start: Position::new(0, 0), body: Box::new(body) };
    let copy = tree.clone();
    assert_eq!(copy, tree);
}

#[test]
fn copy_of_every_kind_of_node_is_equal_to_it() {
    let index = || Box::new(number("0"));
    let access = rudin::parser::statements::ArrayAcess::NestedAcess {
        acess: Box::new(rudin::parser::statements::ArrayAcess::Acess {
            name: "a".to_string(),
            index: index(),
        }),
        index: index(),
    };
    let elements = Expression::ArrayLiteral {
        elements: Some(Box::new(vec![Expression::ArrayAcess(access), name("b")])),
    };
    let start = Position::new(1, 2);
    let block = || Some(Box::new(vec![Statement::Break { start }, Statement::Continue { start }]));
    let statements = vec![
        Statement::If { start, condition: name("c"), body: block(), alternate: None },
        Statement::ElseIf { start, condition: name("c"), body: None, alternate: block() },
        Statement::Else { start, body: block() },
        Statement::While { start, condition: elements, body: block() },
        Statement::For {
            start,
            variable: Some(Box::new(Statement::Return { start, expression: Some(name("r")) })),
            condition: Some(name("c")),
            variable_update: Some(Box::new(Statement::VariableAlteration {
                start,
                name: "i".to_string(),
                operator: TokenKind::OpAddAssign,
                value: number("1"),
            })),
            body: block(),
            alternate: None,
        },
        Statement::Return { start, expression: None },
    ];
    for statement in statements {
        assert_eq!(statement.clone(), statement);
    }
    let types = vec![
        Types::Array(vec![Types::Int, Types::Tuple(vec![Types::Bool, Types::Char])]),
        Types::Vector(vec![Types::Custom("T".to_string())]),
        Types::Function(vec![rudin::internals::types::NamedType {
            name: "x".to_string(),
            ty: Types::Double,
        }]),
        Types::Struct,
        Types::Unknown,
    ];
    for ty in types {
        assert_eq!(ty.clone(), ty);
    }
    let param = FuncParam { name: "p".to_string(), ty: Types::Float };
    assert_eq!(param.clone(), param);
}

#[test]
fn additive_level_keeps_the_product_as_right_operand() {
    for (text, outer, inner) in [
        ("a + b * c", TokenKind::OpAdd, TokenKind::OpMul),
        ("a - b / c", TokenKind::OpSub, TokenKind::OpDiv),
        ("1 + 2 % 3;", TokenKind::OpAdd, TokenKind::OpMod),
    ] {
        let (tokens, _) = lex(text);
        let first = tokens[0].clone();
        let third = tokens[2].clone();
        let fifth = tokens[4].clone();
        let leaf = |t: &Token| match t.kind {
            TokenKind::Identifier => name(&t.value),
            _ => number(&t.value),
        };
        let mut parser = Parser::new(tokens);
        let parsed = parser.parse_plus_or_subtract_expression();
        assert!(parser.output.is_empty());
        assert_eq!(parser.index, 4);
        assert_eq!(
            parsed,
            Some(binary(outer, leaf(&first), binary(inner, leaf(&third), leaf(&fifth))))
        );
    }
}

#[test]
fn each_level_stops_at_a_looser_operator() {
    let (tokens, _) = lex("a * b + c");
    let mut parser = Parser::new(tokens);
    let parsed = parser.parse_multiplicative_expression();
    assert_eq!(parsed, Some(binary(TokenKind::OpMul, name("a"), name("b"))));
    assert_eq!(parser.index, 2);

    let (tokens, _) = lex("a < b == c");
    let mut parser = Parser::new(tokens);
    let parsed = parser.parse_greater_or_smaller_expression();
    assert_eq!(parsed, Some(logical(TokenKind::OpLt, name("a"), name("b"))));
    assert_eq!(parser.index, 2);

    let (tokens, _) = lex("a == b && c");
    let mut parser = Parser::new(tokens);
    let parsed = parser.parse_comparision_expression();
    assert_eq!(parsed, Some(logical(TokenKind::OpEq, name("a"), name("b"))));

    let (tokens, _) = lex("a && b || c");
    let mut parser = Parser::new(tokens);
    let parsed = parser.parse_and_expression();
    assert_eq!(parsed, Some(logical(TokenKind::OpAnd, name("a"), name("b"))));

    let (tokens, _) = lex("a && b || c");
    let mut parser = Parser::new(tokens);
    let parsed = parser.parse_or_expression();
    assert_eq!(
        parsed,
        Some(logical(
            TokenKind::OpOr,
            logical(TokenKind::OpAnd, name("a"), name("b")),
            name("c"),
        ))
    );

    let (tokens, _) = lex("- a * b");
    let mut parser = Parser::new(tokens);
    let parsed = parser.parse_unary_expression();
    assert_eq!(
        parsed,
        Some(Expression::Unary { operator: TokenKind::OpSub, operand: Box::new(name("a")) })
    );
    assert_eq!(parser.index, 1);

    let (tokens, _) = lex("7 * b");
    let mut parser = Parser::new(tokens);
    assert_eq!(parser.parse_primary_expression(), Some(number("7")));
    assert_eq!(parser.index, 0);
}
