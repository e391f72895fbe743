pub mod language;
pub mod rules;
pub mod source;
pub mod tokens;

use crate::handling::{message_views, Message, MessageKind, MessageView};
use crate::internals::Position;
use crate::lexer::rules::{lemma_munch_kind, munch, next_lexeme};
use crate::lexer::source::{
    characters, lemma_offset_grows, lemma_offset_is_encoded_length, offset, offset_after, text_of,
};
use crate::lexer::tokens::{token_views, Token, TokenKind, TokenView};
use vstd::prelude::*;
use vstd::string::StringExecFns;

verus! {

/// Where the scanner stands: the line, the column of the last recognized
/// token, and the byte offset at which the line begins. Columns and
/// offsets count the bytes of the source in UTF-8.
pub ghost struct Cursor {
    pub line: int,
    pub column: int,
    pub line_start: int,
}

/// What a scan gives: the tokens and the diagnostics, each in the order
/// of the source.
pub ghost struct Scan {
    pub tokens: Seq<TokenView>,
    pub diagnostics: Seq<MessageView>,
}

/// The position of a line and a column.
pub open spec fn place(line: int, column: int) -> Position {
    Position { line: line as usize, column: column as usize }
}

/// The diagnostic for a character that begins no token:
/// "<the character> -> Undefined symbol", at the cursor.
pub open spec fn undefined_symbol(symbol: Seq<char>, at: Cursor) -> MessageView {
    MessageView {
        kind: MessageKind::CodeError,
        message: symbol + " -> Undefined symbol"@,
        position: Some(place(at.line, at.column)),
    }
}

/// The sentinel that ends every token sequence: one column past the cursor.
pub open spec fn end_token(at: Cursor) -> TokenView {
    TokenView { kind: TokenKind::Eof, position: place(at.line, at.column + 1), value: "EOF"@ }
}

/// Where the cursor stands after a token of the given kind that begins at
/// the byte offset `start` and ends before `end`: a newline begins a new
/// line after it, at column 0; any other token is at the number of bytes
/// from the beginning of its line.
pub open spec fn moved(at: Cursor, kind: TokenKind, start: int, end: int) -> Cursor {
    if kind == TokenKind::NewLine {
        Cursor { line: at.line + 1, column: 0, line_start: end }
    } else {
        Cursor { line: at.line, column: start - at.line_start, line_start: at.line_start }
    }
}

/// Whether tokens of this kind are left out of the token sequence.
pub open spec fn is_blank(kind: TokenKind) -> bool {
    kind == TokenKind::NewLine || kind == TokenKind::Whitespace
}

/// The number of characters from `pos` to the end of the source.
pub open spec fn left(src: Seq<char>, pos: int) -> nat {
    if pos < src.len() {
        (src.len() - pos) as nat
    } else {
        0
    }
}

/// The scan of `src` from `pos` on, with the cursor at `at` and `seen`
/// gathered so far. At each place the longest token is taken; a character
/// that begins no token gives a diagnostic and is passed over. Blank tokens
/// move the cursor and are left out. The sentinel ends the tokens. A
/// token's column is the number of UTF-8 bytes from the beginning of its
/// line to the token.
pub open spec fn scan(src: Seq<char>, pos: int, at: Cursor, seen: Scan) -> Scan
    decreases left(src, pos),
{
    if pos < 0 || pos >= src.len() {
        Scan { tokens: seen.tokens.push(end_token(at)), diagnostics: seen.diagnostics }
    } else {
        match munch(src, pos) {
            None => scan(
                src,
                pos + 1,
                at,
                Scan {
                    tokens: seen.tokens,
                    diagnostics: seen.diagnostics.push(
                        undefined_symbol(src.subrange(pos, pos + 1), at),
                    ),
                },
            ),
            Some(lexeme) => {
                let to = moved(
                    at,
                    lexeme.kind,
                    offset(src, pos) as int,
                    offset(src, pos + lexeme.len) as int,
                );
                let token = TokenView {
                    kind: lexeme.kind,
                    position: place(to.line, to.column),
                    value: src.subrange(pos, pos + lexeme.len),
                };
                if is_blank(lexeme.kind) {
                    scan(src, pos + lexeme.len, to, seen)
                } else {
                    scan(
                        src,
                        pos + lexeme.len,
                        to,
                        Scan { tokens: seen.tokens.push(token), diagnostics: seen.diagnostics },
                    )
                }
            },
        }
    }
}

/// The tokens and diagnostics of a source text.
pub open spec fn scanned(src: Seq<char>) -> Scan {
    scan(
        src,
        0,
        Cursor { line: 0, column: 0, line_start: 0 },
        Scan { tokens: Seq::empty(), diagnostics: Seq::empty() },
    )
}

/// Whether a token sequence is one that a parser can read: it ends with
/// the sentinel, which occurs nowhere else, and holds no blank token.
pub open spec fn is_token_stream(tokens: Seq<TokenView>) -> bool {
    &&& tokens.len() > 0
    &&& tokens.last().kind == TokenKind::Eof
    &&& forall|i: int|
        0 <= i < tokens.len() - 1 ==> !is_blank(#[trigger] tokens[i].kind) && tokens[i].kind
            != TokenKind::Eof
}

/// Whether every diagnostic is a code error with a position.
pub open spec fn all_code_errors(diagnostics: Seq<MessageView>) -> bool {
    forall|i: int| 0 <= i < diagnostics.len() ==> (#[trigger] diagnostics[i]).is_code_error()
}

/// A scan that goes on from tokens without blanks and sentinels, and from
/// code errors, ends in a token stream and in code errors.
pub proof fn lemma_scan_shape(src: Seq<char>, pos: int, at: Cursor, seen: Scan)
    requires
        forall|i: int|
            0 <= i < seen.tokens.len() ==> !is_blank(#[trigger] seen.tokens[i].kind)
                && seen.tokens[i].kind != TokenKind::Eof,
        all_code_errors(seen.diagnostics),
    ensures
        is_token_stream(scan(src, pos, at, seen).tokens),
        all_code_errors(scan(src, pos, at, seen).diagnostics),
    decreases left(src, pos),
{
    if pos < 0 || pos >= src.len() {
    } else {
        lemma_munch_kind(src, pos);
        match munch(src, pos) {
            None => {
                let next = Scan {
                    tokens: seen.tokens,
                    diagnostics: seen.diagnostics.push(
                        undefined_symbol(src.subrange(pos, pos + 1), at),
                    ),
                };
                lemma_scan_shape(src, pos + 1, at, next);
            },
            Some(lexeme) => {
                let to = moved(
                    at,
                    lexeme.kind,
                    offset(src, pos) as int,
                    offset(src, pos + lexeme.len) as int,
                );
                if is_blank(lexeme.kind) {
                    lemma_scan_shape(src, pos + lexeme.len, to, seen);
                } else {
                    let token = TokenView {
                        kind: lexeme.kind,
                        position: place(to.line, to.column),
                        value: src.subrange(pos, pos + lexeme.len),
                    };
                    let next = Scan {
                        tokens: seen.tokens.push(token),
                        diagnostics: seen.diagnostics,
                    };
                    lemma_scan_shape(src, pos + lexeme.len, to, next);
                }
            },
        }
    }
}

/// The tokens of any source text end with the one sentinel and hold no
/// blank token, and its diagnostics are code errors with a position.
pub proof fn lemma_scanned_shape(src: Seq<char>)
    ensures
        is_token_stream(scanned(src).tokens),
        all_code_errors(scanned(src).diagnostics),
{
    lemma_scan_shape(
        src,
        0,
        Cursor { line: 0, column: 0, line_start: 0 },
        Scan { tokens: Seq::empty(), diagnostics: Seq::empty() },
    );
}

/// Update the line count and the byte offset at which the line begins,
/// after a newline that ends before the byte offset `end`. `extras` holds
/// the two.
pub fn newline_callback(extras: &mut (usize, usize), end: usize)
    requires
        old(extras).0 < usize::MAX,
    ensures
        final(extras).0 == old(extras).0 + 1,
        final(extras).1 == end,
{
    extras.0 = extras.0 + 1;
    extras.1 = end;
}

/// Compute the line and column position for the word that begins at the
/// byte offset `start`: the line count, and the number of bytes from the
/// beginning of the line.
pub fn word_callback(extras: &(usize, usize), start: usize) -> (position: (usize, usize))
    requires
        extras.1 <= start,
    ensures
        position.0 == extras.0,
        position.1 == start - extras.1,
{
    (extras.0, start - extras.1)
}

/// Scans a source text into its tokens and its diagnostics. Lines count
/// from 0, and columns count the bytes of the line in UTF-8 from 0.
pub fn lex(source: &str) -> (found: (Vec<Token>, Vec<Message>))
    ensures
        token_views(found.0@) == scanned(source@).tokens,
        message_views(found.1@) == scanned(source@).diagnostics,
        is_token_stream(token_views(found.0@)),
        all_code_errors(message_views(found.1@)),
{
    proof {
        lemma_scanned_shape(source@);
    }
    let chars = characters(source);
    let size: usize = source.as_bytes().len();
    proof {
        lemma_offset_is_encoded_length(source@);
    }
    let mut tokens: Vec<Token> = Vec::new();
    let mut output: Vec<Message> = Vec::new();
    let mut pos: usize = 0;
    let mut byte: usize = 0;
    let mut extras: (usize, usize) = (0, 0);
    let mut column: usize = 0;
    assert(token_views(tokens@) =~= Seq::empty());
    assert(message_views(output@) =~= Seq::empty());
    while pos < chars.len()
        invariant
            chars@ == source@,
            pos <= chars.len(),
            size == offset(chars@, chars.len() as int),
            byte == offset(chars@, pos as int),
            extras.0 <= pos,
            extras.1 <= byte,
            column == 0 || column < byte,
            scan(
                chars@,
                pos as int,
                Cursor {
                    line: extras.0 as int,
                    column: column as int,
                    line_start: extras.1 as int,
                },
                Scan { tokens: token_views(tokens@), diagnostics: message_views(output@) },
            ) == scanned(source@),
        decreases chars.len() - pos,
    {
        match next_lexeme(&chars, pos) {
            Some((kind, len)) => {
                let end: usize = offset_after(&chars, pos, pos + len, byte);
                proof {
                    lemma_offset_grows(chars@, pos as int, pos + len);
                }
                if kind == TokenKind::NewLine {
                    newline_callback(&mut extras, end);
                    column = 0;
                } else {
                    column = word_callback(&extras, byte).1;
                }
                if !(kind == TokenKind::NewLine || kind == TokenKind::Whitespace) {
                    let token = Token::new(
                        kind,
                        Position::new(extras.0, column),
                        text_of(&chars, pos, pos + len),
                    );
                    let ghost before = tokens@;
                    tokens.push(token);
                    assert(token_views(tokens@) =~= token_views(before).push(token@));
                }
                pos = pos + len;
                byte = end;
            },
            None => {
                let mut text = text_of(&chars, pos, pos + 1);
                text.append(" -> Undefined symbol");
                let error = Message::new(
                    MessageKind::CodeError,
                    text,
                    Some(Position::new(extras.0, column)),
                );
                let ghost before = output@;
                output.push(error);
                assert(message_views(output@) =~= message_views(before).push(error@));
                byte = offset_after(&chars, pos, pos + 1, byte);
                pos = pos + 1;
            },
        }
    }
    let ghost before = tokens@;
    let end = Token::new(
        TokenKind::Eof,
        Position::new(extras.0, column + 1),
        String::from_str("EOF"),
    );
    tokens.push(end);
    assert(token_views(tokens@) =~= token_views(before).push(end@));
    (tokens, output)
}

/// A scanner over one source text. `lex` adds what it finds to `tokens`
/// and `output`.
pub struct Lexer {
    pub tokens: Vec<Token>,
    pub input: String,
    pub output: Vec<Message>,
}

impl Lexer {
    pub fn new(input: String) -> (lexer: Self)
        ensures
            lexer.input == input,
            lexer.tokens@.len() == 0,
            lexer.output@.len() == 0,
    {
        Lexer { tokens: Vec::new(), input, output: Vec::new() }
    }

    /// Scans the input: its tokens are added to `tokens`, its diagnostics to `output`.
    pub fn lex(&mut self)
        ensures
            final(self).input == old(self).input,
            token_views(final(self).tokens@) == token_views(old(self).tokens@) + scanned(
                old(self).input@,
            ).tokens,
            message_views(final(self).output@) == message_views(old(self).output@) + scanned(
                old(self).input@,
            ).diagnostics,
    {
        let (mut tokens, mut output) = lex(self.input.as_str());
        let ghost found_tokens = tokens@;
        let ghost found_output = output@;
        self.tokens.append(&mut tokens);
        self.output.append(&mut output);
        assert(token_views(self.tokens@) =~= token_views(old(self).tokens@) + token_views(
            found_tokens,
        ));
        assert(message_views(self.output@) =~= message_views(old(self).output@) + message_views(
            found_output,
        ));
    }
}

} // verus!
