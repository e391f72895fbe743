use crate::internals::Position;
use vstd::prelude::*;

verus! {

/// The closed set of token kinds.
#[derive(Debug, Clone, Copy, PartialEq, Eq, Structural)]
pub enum TokenKind {
    // Structural tokens
    NewLine,
    Whitespace,
    OpenComment,
    CloseComment,
    ColonColon,
    Eof,
    // Delimiters
    LeftParen,
    RightParen,
    LeftBracket,
    RightBracket,
    LeftBrace,
    RightBrace,
    // Punctuation
    Dot,
    Comma,
    Semicolon,
    Colon,
    // Declaration keywords
    KwFunc,
    KwVar,
    KwConst,
    KwStruct,
    KwEnum,
    KwClass,
    KwTrait,
    // Visibility keywords
    KwPub,
    KwPriv,
    KwProt,
    // Branching keywords
    KwIf,
    KwElse,
    KwElif,
    // Loop keywords
    KwWhile,
    KwLoop,
    KwFor,
    // Control flow keywords
    KwReturn,
    KwBreak,
    KwContinue,
    // Special keywords
    KwUse,
    KwOver,
    KwExtends,
    KwImpl,
    KwNew,
    KwDestroy,
    // Built-in types
    TyVoid,
    TyInt,
    TyFloat,
    TyDouble,
    TyBool,
    TyChar,
    TyString,
    // Binary operators
    OpAdd,
    OpSub,
    OpMul,
    OpDiv,
    OpMod,
    // Logical operators
    OpEq,
    OpNeq,
    OpAnd,
    OpOr,
    OpNot,
    OpLt,
    OpGt,
    OpLe,
    OpGe,
    // Assignment operators
    OpAssign,
    OpAddAssign,
    OpSubAssign,
    OpMulAssign,
    OpDivAssign,
    OpModAssign,
    // Special operators
    OpInc,
    OpDec,
    OpArrow,
    // Literals
    Identifier,
    Number,
    CharLiteral,
    StringLiteral,
    True,
    False,
}

/// A token: its kind, where it starts, and the text it was read from.
#[derive(Debug, PartialEq)]
pub struct Token {
    pub kind: TokenKind,
    pub position: Position,
    pub value: String,
}

/// A token with its text as a sequence of characters.
pub ghost struct TokenView {
    pub kind: TokenKind,
    pub position: Position,
    pub value: Seq<char>,
}

impl View for Token {
    type V = TokenView;

    open spec fn view(&self) -> TokenView {
        TokenView { kind: self.kind, position: self.position, value: self.value@ }
    }
}

/// The views of a sequence of tokens, in order.
pub open spec fn token_views(tokens: Seq<Token>) -> Seq<TokenView> {
    tokens.map_values(|t: Token| t@)
}

impl Clone for Token {
    /// A copy of the same kind, at the same place, with the same text.
    fn clone(&self) -> (copy: Self)
        ensures
            copy@ == self@,
    {
        Token { kind: self.kind, position: self.position, value: self.value.clone() }
    }
}

impl Token {
    pub fn new(kind: TokenKind, position: Position, value: String) -> (token: Self)
        ensures
            token.kind == kind,
            token.position == position,
            token.value == value,
    {
        Self { kind, position, value }
    }

    pub fn get_position(&self) -> (at: (usize, usize))
        ensures
            at.0 == self.position.line,
            at.1 == self.position.column,
    {
        (self.position.line, self.position.column)
    }
}

} // verus!
