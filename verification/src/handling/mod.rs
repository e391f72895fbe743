use crate::internals::Position;
use crate::lexer::tokens::{Token, TokenKind, TokenView};
use vstd::prelude::*;
use vstd::string::StringExecFns;

verus! {

/// How severe a diagnostic is, and whether it is about the source text
/// (the `Code` kinds) or about the host.
#[derive(Debug, Clone, Copy, PartialEq, Eq, Structural)]
pub enum MessageKind {
    Error,
    CodeError,
    CodeWarning,
    Warning,
    CodeInfo,
    Info,
}

/// A diagnostic: its kind, its text, and the place in the source it is about,
/// if it is about one.
#[derive(Debug, PartialEq)]
pub struct Message {
    pub kind: MessageKind,
    pub message: String,
    pub position: Option<Position>,
}

/// A diagnostic with its text as a sequence of characters.
pub ghost struct MessageView {
    pub kind: MessageKind,
    pub message: Seq<char>,
    pub position: Option<Position>,
}

impl View for Message {
    type V = MessageView;

    open spec fn view(&self) -> MessageView {
        MessageView { kind: self.kind, message: self.message@, position: self.position }
    }
}

/// The views of a sequence of diagnostics, in order.
pub open spec fn message_views(messages: Seq<Message>) -> Seq<MessageView> {
    messages.map_values(|m: Message| m@)
}

impl MessageView {
    /// The diagnostic for a token that stands where `expected` should:
    /// "Expected <expected> but found <the token's text>", at the token.
    pub open spec fn expected(expected: Seq<char>, found: TokenView) -> MessageView {
        MessageView {
            kind: MessageKind::CodeError,
            message: "Expected "@ + expected + " but found "@ + found.value,
            position: Some(found.position),
        }
    }

    /// The diagnostic for a token that nothing can begin with:
    /// "Unexpected token: <the token's text>", at the token.
    pub open spec fn unexpected(found: TokenView) -> MessageView {
        MessageView {
            kind: MessageKind::CodeError,
            message: "Unexpected token: "@ + found.value,
            position: Some(found.position),
        }
    }

    /// Whether the diagnostic is about the source text: a code error with a position.
    pub open spec fn is_code_error(self) -> bool {
        self.kind == MessageKind::CodeError && self.position is Some
    }
}

impl Clone for Message {
    /// A copy of the same kind, with the same text and the same position.
    fn clone(&self) -> (copy: Self)
        ensures
            copy@ == self@,
    {
        Message { kind: self.kind, message: self.message.clone(), position: self.position }
    }
}

impl Message {
    pub fn new(kind: MessageKind, message: String, position: Option<Position>) -> (made: Self)
        ensures
            made.kind == kind,
            made.message == message,
            made.position == position,
    {
        Self { kind, message, position }
    }

    /// A code error saying that `expected` was expected where `found` stands.
    pub fn expected_error(expected: &str, found: &Token) -> (made: Self)
        ensures
            made@ == MessageView::expected(expected@, found@),
    {
        let mut text = String::from_str("Expected ");
        text.append(expected);
        text.append(" but found ");
        text.append(found.value.as_str());
        Self { kind: MessageKind::CodeError, message: text, position: Some(found.position) }
    }

    /// Nothing if `found` is of the expected kind, else the code error that
    /// `expected_error` makes.
    pub fn expected_or_error(expected_kind: TokenKind, expected: &str, found: &Token) -> (made:
        Option<Self>)
        ensures
            found.kind == expected_kind ==> made is None,
            found.kind != expected_kind ==> made is Some && made->0@ == MessageView::expected(
                expected@,
                found@,
            ),
    {
        if expected_kind == found.kind {
            None
        } else {
            Some(Self::expected_error(expected, found))
        }
    }

    /// A code error saying that `found` was not expected.
    pub fn unexpected_error(found: &Token) -> (made: Self)
        ensures
            made@ == MessageView::unexpected(found@),
    {
        let mut text = String::from_str("Unexpected token: ");
        text.append(found.value.as_str());
        Self { kind: MessageKind::CodeError, message: text, position: Some(found.position) }
    }
}

} // verus!
