use rudin::handling::{Message, MessageKind};
use rudin::internals::Position;
use rudin::lexer::tokens::{Token, TokenKind};

#[test]
fn expected_error_names_what_was_found() {
    let found = Token::new(TokenKind::Semicolon, Position::new(3, 7), ";".to_string());
    let message = Message::expected_error("an identifier", &found);
    assert_eq!(message.kind, MessageKind::CodeError);
    assert_eq!(message.message, "Expected an identifier but found ;");
    assert_eq!(message.position, Some(Position::new(3, 7)));
}

#[test]
fn expected_or_error_is_nothing_for_the_expected_kind() {
    let found = Token::new(TokenKind::Colon, Position::new(0, 2), ":".to_string());
    assert_eq!(Message::expected_or_error(TokenKind::Colon, "a colon", &found), None);
    let other = Message::expected_or_error(TokenKind::Semicolon, "end of statement", &found);
    assert_eq!(other, Some(Message::expected_error("end of statement", &found)));
    assert_eq!(other.unwrap().message, "Expected end of statement but found :");
}

#[test]
fn unexpected_error_names_the_token() {
    let found = Token::new(TokenKind::Number, Position::new(1, 0), "42".to_string());
    let message = Message::unexpected_error(&found);
    assert_eq!(message.kind, MessageKind::CodeError);
    assert_eq!(message.message, "Unexpected token: 42");
    assert_eq!(message.position, Some(Position::new(1, 0)));
}

#[test]
fn new_keeps_its_parts() {
    let message = Message::new(MessageKind::Warning, "careful".to_string(), None);
    assert_eq!(message.kind, MessageKind::Warning);
    assert_eq!(message.message, "careful");
    assert_eq!(message.position, None);
    let kinds = vec![
        MessageKind::Error,
        MessageKind::CodeError,
        MessageKind::CodeWarning,
        MessageKind::Warning,
        MessageKind::CodeInfo,
        MessageKind::Info,
    ];
    for kind in kinds {
        assert_eq!(Message::new(kind, String::new(), None).kind, kind);
    }
}

#[test]
fn position_and_token_keep_their_parts() {
    let position = Position::new(4, 9);
    assert_eq!(position.line, 4);
    assert_eq!(position.column, 9);
    let token = Token::new(TokenKind::Identifier, position, "name".to_string());
    assert_eq!(token.kind, TokenKind::Identifier);
    assert_eq!(token.value, "name");
    assert_eq!(token.get_position(), (4, 9));
}

#[test]
fn copies_are_equal_to_what_they_copy() {
    let token = Token::new(TokenKind::StringLiteral, Position::new(2, 3), "\"text\"".to_string());
    assert_eq!(token.clone(), token);
    let message = Message::expected_error("a type", &token);
    assert_eq!(message.clone(), message);
    let plain = Message::new(MessageKind::Info, "note".to_string(), None);
    assert_eq!(plain.clone(), plain);
}
