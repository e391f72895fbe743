use rudin::handling::MessageKind;
use rudin::internals::Position;
use rudin::lexer::tokens::{Token, TokenKind};
use rudin::lexer::source::{characters, offset_after, text_of, utf8_length};
use rudin::lexer::{lex, newline_callback, word_callback, Lexer};

fn kinds(source: &str) -> Vec<TokenKind> {
    lex(source).0.iter().map(|t| t.kind).collect()
}

fn texts(source: &str) -> Vec<String> {
    lex(source).0.iter().map(|t| t.value.clone()).collect()
}

#[test]
fn empty_source_gives_only_the_sentinel() {
    let (tokens, diagnostics) = lex("");
    assert!(diagnostics.is_empty());
    assert_eq!(tokens.len(), 1);
    assert_eq!(tokens[0], Token::new(TokenKind::Eof, Position::new(0, 1), "EOF".to_string()));
}

#[test]
fn position_of_identifier_on_second_line() {
    let (tokens, diagnostics) = lex("var x: int = 5;\nvar y: int = 10;");
    assert!(diagnostics.is_empty());
    let y = tokens.iter().find(|t| t.value == "y").unwrap();
    assert_eq!(y.kind, TokenKind::Identifier);
    assert_eq!(y.position, Position::new(1, 4));
    assert_eq!(y.get_position(), (1, 4));
}

#[test]
fn declaration_tokens_in_order() {
    let (tokens, diagnostics) = lex("var x: int = 5;");
    assert!(diagnostics.is_empty());
    let expected = vec![
        Token::new(TokenKind::KwVar, Position::new(0, 0), "var".to_string()),
        Token::new(TokenKind::Identifier, Position::new(0, 4), "x".to_string()),
        Token::new(TokenKind::Colon, Position::new(0, 5), ":".to_string()),
        Token::new(TokenKind::TyInt, Position::new(0, 7), "int".to_string()),
        Token::new(TokenKind::OpAssign, Position::new(0, 11), "=".to_string()),
        Token::new(TokenKind::Number, Position::new(0, 13), "5".to_string()),
        Token::new(TokenKind::Semicolon, Position::new(0, 14), ";".to_string()),
        Token::new(TokenKind::Eof, Position::new(0, 15), "EOF".to_string()),
    ];
    assert_eq!(tokens, expected);
}

#[test]
fn undefined_symbol_is_reported_and_passed_over() {
    let (tokens, diagnostics) = lex("var x: int = 5 $ ;");
    assert_eq!(diagnostics.len(), 1);
    assert_eq!(diagnostics[0].kind, MessageKind::CodeError);
    assert_eq!(diagnostics[0].message, "$ -> Undefined symbol");
    assert_eq!(diagnostics[0].position, Some(Position::new(0, 14)));
    let found: Vec<TokenKind> = tokens.iter().map(|t| t.kind).collect();
    assert_eq!(
        found,
        vec![
            TokenKind::KwVar,
            TokenKind::Identifier,
            TokenKind::Colon,
            TokenKind::TyInt,
            TokenKind::OpAssign,
            TokenKind::Number,
            TokenKind::Semicolon,
            TokenKind::Eof,
        ]
    );
    assert_eq!(tokens[6].position, Position::new(0, 17));
}

#[test]
fn every_undefined_symbol_is_reported() {
    let (tokens, diagnostics) = lex("a $ b @ c");
    assert_eq!(diagnostics.len(), 2);
    assert_eq!(diagnostics[0].message, "$ -> Undefined symbol");
    assert_eq!(diagnostics[1].message, "@ -> Undefined symbol");
    assert_eq!(tokens.len(), 4);
}

#[test]
fn longest_operator_wins() {
    assert_eq!(kinds("=="), vec![TokenKind::OpEq, TokenKind::Eof]);
    assert_eq!(kinds("= ="), vec![TokenKind::OpAssign, TokenKind::OpAssign, TokenKind::Eof]);
    assert_eq!(kinds("<="), vec![TokenKind::OpLe, TokenKind::Eof]);
    assert_eq!(kinds("->"), vec![TokenKind::OpArrow, TokenKind::Eof]);
    assert_eq!(kinds("::"), vec![TokenKind::ColonColon, TokenKind::Eof]);
    assert_eq!(kinds(":"), vec![TokenKind::Colon, TokenKind::Eof]);
    assert_eq!(kinds("++"), vec![TokenKind::OpInc, TokenKind::Eof]);
    assert_eq!(kinds("+="), vec![TokenKind::OpAddAssign, TokenKind::Eof]);
    assert_eq!(kinds("&&"), vec![TokenKind::OpAnd, TokenKind::Eof]);
    assert_eq!(kinds("||"), vec![TokenKind::OpOr, TokenKind::Eof]);
    assert_eq!(kinds("!="), vec![TokenKind::OpNeq, TokenKind::Eof]);
    assert_eq!(kinds("!"), vec![TokenKind::OpNot, TokenKind::Eof]);
    assert_eq!(kinds("-#"), vec![TokenKind::OpenComment, TokenKind::Eof]);
    assert_eq!(kinds("#-"), vec![TokenKind::CloseComment, TokenKind::Eof]);
}

#[test]
fn keyword_wins_over_identifier_of_the_same_text() {
    assert_eq!(kinds("var"), vec![TokenKind::KwVar, TokenKind::Eof]);
    assert_eq!(kinds("variable"), vec![TokenKind::Identifier, TokenKind::Eof]);
    assert_eq!(kinds("va"), vec![TokenKind::Identifier, TokenKind::Eof]);
    assert_eq!(kinds("continue"), vec![TokenKind::KwContinue, TokenKind::Eof]);
    assert_eq!(kinds("continued"), vec![TokenKind::Identifier, TokenKind::Eof]);
    assert_eq!(kinds("and or not"), vec![
        TokenKind::OpAnd,
        TokenKind::OpOr,
        TokenKind::OpNot,
        TokenKind::Eof
    ]);
    assert_eq!(kinds("true false"), vec![TokenKind::True, TokenKind::False, TokenKind::Eof]);
    assert_eq!(kinds("str double"), vec![TokenKind::TyString, TokenKind::TyDouble, TokenKind::Eof]);
    assert_eq!(kinds("_x1"), vec![TokenKind::Identifier, TokenKind::Eof]);
}

#[test]
fn numbers_take_sign_fraction_and_exponent() {
    assert_eq!(texts("12.5e-3"), vec!["12.5e-3", "EOF"]);
    assert_eq!(kinds("12.5e-3"), vec![TokenKind::Number, TokenKind::Eof]);
    assert_eq!(texts("-7"), vec!["-7", "EOF"]);
    assert_eq!(kinds("-7"), vec![TokenKind::Number, TokenKind::Eof]);
    assert_eq!(texts("0123"), vec!["0", "123", "EOF"]);
    assert_eq!(texts("1."), vec!["1", ".", "EOF"]);
    assert_eq!(kinds("1."), vec![TokenKind::Number, TokenKind::Dot, TokenKind::Eof]);
    assert_eq!(texts("1e"), vec!["1", "e", "EOF"]);
    assert_eq!(kinds("1e"), vec![TokenKind::Number, TokenKind::Identifier, TokenKind::Eof]);
    assert_eq!(texts("2E+10"), vec!["2E+10", "EOF"]);
    assert_eq!(texts("--5"), vec!["--", "5", "EOF"]);
    assert_eq!(kinds("- 5"), vec![TokenKind::OpSub, TokenKind::Number, TokenKind::Eof]);
}

#[test]
fn literals_in_quotes() {
    assert_eq!(kinds("\"hello world\""), vec![TokenKind::StringLiteral, TokenKind::Eof]);
    assert_eq!(texts("\"a\\\"b\""), vec!["\"a\\\"b\"", "EOF"]);
    assert_eq!(kinds("'c'"), vec![TokenKind::CharLiteral, TokenKind::Eof]);
    assert_eq!(kinds("'\\n'"), vec![TokenKind::CharLiteral, TokenKind::Eof]);
    assert_eq!(kinds("\"\""), vec![TokenKind::StringLiteral, TokenKind::Eof]);
}

#[test]
fn unterminated_literal_is_an_undefined_symbol() {
    let (tokens, diagnostics) = lex("\"abc");
    assert_eq!(diagnostics.len(), 1);
    assert_eq!(diagnostics[0].message, "\" -> Undefined symbol");
    assert_eq!(tokens.len(), 2);
    assert_eq!(tokens[0].kind, TokenKind::Identifier);
    assert_eq!(tokens[0].value, "abc");
}

#[test]
fn literal_with_unknown_escape_is_not_a_token() {
    let (_, diagnostics) = lex("\"a\\qb\"");
    assert!(!diagnostics.is_empty());
    assert_eq!(diagnostics[0].message, "\" -> Undefined symbol");
}

#[test]
fn nul_and_tab_are_undefined_symbols() {
    let (tokens, diagnostics) = lex("a\0b\tc");
    assert_eq!(diagnostics.len(), 2);
    assert_eq!(tokens.iter().filter(|t| t.kind == TokenKind::Eof).count(), 1);
    assert_eq!(tokens.last().unwrap().kind, TokenKind::Eof);
}

#[test]
fn token_stream_has_no_blank_and_one_sentinel() {
    let (tokens, _) = lex("func f() -> int {\n  var x: int = 1;\n}\n");
    assert!(tokens.iter().all(|t| t.kind != TokenKind::Whitespace && t.kind != TokenKind::NewLine));
    assert_eq!(tokens.iter().filter(|t| t.kind == TokenKind::Eof).count(), 1);
    assert_eq!(tokens.last().unwrap().kind, TokenKind::Eof);
}

#[test]
fn sentinel_is_one_column_past_the_last_token() {
    let (tokens, _) = lex("var x");
    assert_eq!(tokens.last().unwrap().position, Position::new(0, 5));
    let (tokens, _) = lex("var x\n");
    assert_eq!(tokens.last().unwrap().position, Position::new(1, 1));
    let (tokens, _) = lex("ab");
    assert_eq!(tokens.last().unwrap().position, Position::new(0, 1));
}

#[test]
fn lines_and_columns_follow_newlines() {
    let (tokens, _) = lex("a\n\n  b\nc d");
    let places: Vec<(usize, usize)> = tokens.iter().map(|t| t.get_position()).collect();
    assert_eq!(places, vec![(0, 0), (2, 2), (3, 0), (3, 2), (3, 3)]);
}

#[test]
fn columns_count_bytes() {
    let (tokens, diagnostics) = lex("\"\u{e9}\" x");
    assert!(diagnostics.is_empty());
    assert_eq!(tokens[1].value, "x");
    assert_eq!(tokens[1].position, Position::new(0, 5));
    assert_eq!(tokens[2].position, Position::new(0, 6));
}

#[test]
fn column_after_characters_of_two_three_and_four_bytes() {
    let (tokens, _) = lex("'\u{e9}';");
    assert_eq!(tokens[1].position, Position::new(0, 4));
    let (tokens, _) = lex("'\u{20ac}';");
    assert_eq!(tokens[1].position, Position::new(0, 5));
    let (tokens, _) = lex("'\u{1f600}';");
    assert_eq!(tokens[1].position, Position::new(0, 6));
    assert_eq!(tokens[2].position, Position::new(0, 7));
}

#[test]
fn column_is_the_byte_offset_in_the_line() {
    let source = "'\u{e9}' a\n\"\u{20ac}\u{1f600}\" bc;";
    let (tokens, diagnostics) = lex(source);
    assert!(diagnostics.is_empty());
    let lines: Vec<&str> = source.split('\n').collect();
    for token in &tokens[..tokens.len() - 1] {
        let line = lines[token.position.line].as_bytes();
        assert!(line[token.position.column..].starts_with(token.value.as_bytes()));
    }
    let places: Vec<(usize, usize)> = tokens.iter().map(|t| t.get_position()).collect();
    assert_eq!(places, vec![(0, 0), (0, 5), (1, 0), (1, 10), (1, 12), (1, 13)]);
}

#[test]
fn undefined_symbol_of_two_bytes_moves_the_column_by_two() {
    let (tokens, diagnostics) = lex("\u{e9};");
    assert_eq!(diagnostics.len(), 1);
    assert_eq!(diagnostics[0].message, "\u{e9} -> Undefined symbol");
    assert_eq!(diagnostics[0].position, Some(Position::new(0, 0)));
    assert_eq!(tokens[0].kind, TokenKind::Semicolon);
    assert_eq!(tokens[0].position, Position::new(0, 2));
    assert_eq!(tokens[1].position, Position::new(0, 3));
}

#[test]
fn length_of_a_character_in_bytes() {
    assert_eq!(utf8_length('a'), 1);
    assert_eq!(utf8_length('\u{7f}'), 1);
    assert_eq!(utf8_length('\u{80}'), 2);
    assert_eq!(utf8_length('\u{7ff}'), 2);
    assert_eq!(utf8_length('\u{800}'), 3);
    assert_eq!(utf8_length('\u{ffff}'), 3);
    assert_eq!(utf8_length('\u{10000}'), 4);
    assert_eq!(utf8_length('\u{10ffff}'), 4);
    for c in ['a', '\u{e9}', '\u{20ac}', '\u{1f600}'] {
        assert_eq!(utf8_length(c), c.len_utf8());
    }
}

#[test]
fn byte_offset_of_a_later_character() {
    let chars: Vec<char> = "a\u{e9}\u{20ac}\u{1f600}b".chars().collect();
    assert_eq!(offset_after(&chars, 0, 0, 0), 0);
    assert_eq!(offset_after(&chars, 0, 1, 0), 1);
    assert_eq!(offset_after(&chars, 0, 2, 0), 3);
    assert_eq!(offset_after(&chars, 2, 4, 3), 10);
    assert_eq!(offset_after(&chars, 0, 5, 0), 11);
    assert_eq!(characters("a\u{e9}b"), vec!['a', '\u{e9}', 'b']);
    assert_eq!(text_of(&chars, 1, 3), "\u{e9}\u{20ac}");
}

#[test]
fn lexer_struct_adds_to_its_fields() {
    let mut lexer = Lexer::new("x $".to_string());
    assert!(lexer.tokens.is_empty());
    assert!(lexer.output.is_empty());
    lexer.lex();
    assert_eq!(lexer.tokens.len(), 2);
    assert_eq!(lexer.output.len(), 1);
    assert_eq!(lexer.input, "x $");
}

#[test]
fn newline_moves_to_the_next_line() {
    let mut extras = (3, 10);
    newline_callback(&mut extras, 25);
    assert_eq!(extras, (4, 25));
}

#[test]
fn word_is_at_its_offset_from_the_line_start() {
    assert_eq!(word_callback(&(4, 25), 31), (4, 6));
    assert_eq!(word_callback(&(0, 0), 0), (0, 0));
}

#[test]
fn literal_over_two_lines_does_not_count_a_line() {
    let (tokens, diagnostics) = lex("\"a\nb\" x\ny");
    assert!(diagnostics.is_empty());
    assert_eq!(tokens[0].kind, TokenKind::StringLiteral);
    assert_eq!(tokens[1].position, Position::new(0, 6));
    assert_eq!(tokens[2].position, Position::new(1, 0));
}
