//! The token rules: which texts are tokens, and of which kind.
//!
//! A fixed text (a keyword, an operator, a delimiter) is a token of its own
//! kind. An identifier, a number, a character literal and a string literal
//! are the texts of four patterns. At a place in a source the token is the
//! longest text that any rule accepts there; where a fixed text and a pattern
//! accept the same text, it is the fixed text's kind.
use crate::lexer::tokens::TokenKind;
use vstd::prelude::*;
use vstd::string::StrSliceExecFns;

verus! {

/// The kind of a fixed text, if `text` is one.
pub open spec fn fixed_kind(text: Seq<char>) -> Option<TokenKind> {
    if text == "\n"@ {
        Some(TokenKind::NewLine)
    } else if text == " "@ {
        Some(TokenKind::Whitespace)
    } else if text == "-#"@ {
        Some(TokenKind::OpenComment)
    } else if text == "#-"@ {
        Some(TokenKind::CloseComment)
    } else if text == "::"@ {
        Some(TokenKind::ColonColon)
    } else if text == "("@ {
        Some(TokenKind::LeftParen)
    } else if text == ")"@ {
        Some(TokenKind::RightParen)
    } else if text == "["@ {
        Some(TokenKind::LeftBracket)
    } else if text == "]"@ {
        Some(TokenKind::RightBracket)
    } else if text == "{"@ {
        Some(TokenKind::LeftBrace)
    } else if text == "}"@ {
        Some(TokenKind::RightBrace)
    } else if text == "."@ {
        Some(TokenKind::Dot)
    } else if text == ","@ {
        Some(TokenKind::Comma)
    } else if text == ";"@ {
        Some(TokenKind::Semicolon)
    } else if text == ":"@ {
        Some(TokenKind::Colon)
    } else if text == "func"@ {
        Some(TokenKind::KwFunc)
    } else if text == "var"@ {
        Some(TokenKind::KwVar)
    } else if text == "const"@ {
        Some(TokenKind::KwConst)
    } else if text == "struct"@ {
        Some(TokenKind::KwStruct)
    } else if text == "enum"@ {
        Some(TokenKind::KwEnum)
    } else if text == "class"@ {
        Some(TokenKind::KwClass)
    } else if text == "trait"@ {
        Some(TokenKind::KwTrait)
    } else if text == "pub"@ {
        Some(TokenKind::KwPub)
    } else if text == "priv"@ {
        Some(TokenKind::KwPriv)
    } else if text == "prot"@ {
        Some(TokenKind::KwProt)
    } else if text == "if"@ {
        Some(TokenKind::KwIf)
    } else if text == "else"@ {
        Some(TokenKind::KwElse)
    } else if text == "elif"@ {
        Some(TokenKind::KwElif)
    } else if text == "while"@ {
        Some(TokenKind::KwWhile)
    } else if text == "loop"@ {
        Some(TokenKind::KwLoop)
    } else if text == "for"@ {
        Some(TokenKind::KwFor)
    } else if text == "return"@ {
        Some(TokenKind::KwReturn)
    } else if text == "break"@ {
        Some(TokenKind::KwBreak)
    } else if text == "continue"@ {
        Some(TokenKind::KwContinue)
    } else if text == "use"@ {
        Some(TokenKind::KwUse)
    } else if text == "over"@ {
        Some(TokenKind::KwOver)
    } else if text == "extends"@ {
        Some(TokenKind::KwExtends)
    } else if text == "impl"@ {
        Some(TokenKind::KwImpl)
    } else if text == "new"@ {
        Some(TokenKind::KwNew)
    } else if text == "destroy"@ {
        Some(TokenKind::KwDestroy)
    } else if text == "void"@ {
        Some(TokenKind::TyVoid)
    } else if text == "int"@ {
        Some(TokenKind::TyInt)
    } else if text == "float"@ {
        Some(TokenKind::TyFloat)
    } else if text == "double"@ {
        Some(TokenKind::TyDouble)
    } else if text == "bool"@ {
        Some(TokenKind::TyBool)
    } else if text == "char"@ {
        Some(TokenKind::TyChar)
    } else if text == "str"@ {
        Some(TokenKind::TyString)
    } else if text == "+"@ {
        Some(TokenKind::OpAdd)
    } else if text == "-"@ {
        Some(TokenKind::OpSub)
    } else if text == "*"@ {
        Some(TokenKind::OpMul)
    } else if text == "/"@ {
        Some(TokenKind::OpDiv)
    } else if text == "%"@ {
        Some(TokenKind::OpMod)
    } else if text == "=="@ {
        Some(TokenKind::OpEq)
    } else if text == "!="@ {
        Some(TokenKind::OpNeq)
    } else if text == "&&"@ {
        Some(TokenKind::OpAnd)
    } else if text == "and"@ {
        Some(TokenKind::OpAnd)
    } else if text == "||"@ {
        Some(TokenKind::OpOr)
    } else if text == "or"@ {
        Some(TokenKind::OpOr)
    } else if text == "!"@ {
        Some(TokenKind::OpNot)
    } else if text == "not"@ {
        Some(TokenKind::OpNot)
    } else if text == "<"@ {
        Some(TokenKind::OpLt)
    } else if text == ">"@ {
        Some(TokenKind::OpGt)
    } else if text == "<="@ {
        Some(TokenKind::OpLe)
    } else if text == ">="@ {
        Some(TokenKind::OpGe)
    } else if text == "="@ {
        Some(TokenKind::OpAssign)
    } else if text == "+="@ {
        Some(TokenKind::OpAddAssign)
    } else if text == "-="@ {
        Some(TokenKind::OpSubAssign)
    } else if text == "*="@ {
        Some(TokenKind::OpMulAssign)
    } else if text == "/="@ {
        Some(TokenKind::OpDivAssign)
    } else if text == "%="@ {
        Some(TokenKind::OpModAssign)
    } else if text == "++"@ {
        Some(TokenKind::OpInc)
    } else if text == "--"@ {
        Some(TokenKind::OpDec)
    } else if text == "->"@ {
        Some(TokenKind::OpArrow)
    } else if text == "true"@ {
        Some(TokenKind::True)
    } else if text == "false"@ {
        Some(TokenKind::False)
    } else {
        None
    }
}

/// The length of the longest fixed text.
pub open spec fn longest_fixed() -> nat {
    8
}

/// The length of the longest fixed text of at most `n` characters that
/// stands at `pos`; 0 if there is none.
pub open spec fn fixed_len_upto(src: Seq<char>, pos: int, n: nat) -> nat
    decreases n,
{
    if n == 0 {
        0
    } else if pos + n <= src.len() && fixed_kind(src.subrange(pos, pos + n)) is Some {
        n
    } else {
        fixed_len_upto(src, pos, (n - 1) as nat)
    }
}

/// The length of the longest fixed text that stands at `pos`; 0 if there is none.
pub open spec fn fixed_len(src: Seq<char>, pos: int) -> nat {
    fixed_len_upto(src, pos, longest_fixed())
}

pub open spec fn is_digit(c: char) -> bool {
    '0' <= c <= '9'
}

/// A character that an identifier can begin with: a letter or `_`.
pub open spec fn is_word_start(c: char) -> bool {
    ('a' <= c <= 'z') || ('A' <= c <= 'Z') || c == '_'
}

/// A character that an identifier can go on with: a letter, `_`, or a digit.
pub open spec fn is_word_char(c: char) -> bool {
    is_word_start(c) || is_digit(c)
}

/// Whether the character at `i` is `c`.
pub open spec fn has(src: Seq<char>, i: int, c: char) -> bool {
    0 <= i < src.len() && src[i] == c
}

/// Whether the character at `i` is a digit.
pub open spec fn digit_at(src: Seq<char>, i: int) -> bool {
    0 <= i < src.len() && is_digit(src[i])
}

/// The number of digits in a row from `pos` on.
pub open spec fn digits(src: Seq<char>, pos: int) -> nat
    decreases src.len() - pos,
{
    if digit_at(src, pos) {
        1 + digits(src, pos + 1)
    } else {
        0
    }
}

/// The number of identifier characters in a row from `pos` on.
pub open spec fn word_chars(src: Seq<char>, pos: int) -> nat
    decreases src.len() - pos,
{
    if 0 <= pos < src.len() && is_word_char(src[pos]) {
        1 + word_chars(src, pos + 1)
    } else {
        0
    }
}

/// The length of the identifier at `pos`: a letter or `_`, then letters,
/// `_` and digits; 0 if none begins there.
pub open spec fn word_len(src: Seq<char>, pos: int) -> nat {
    if 0 <= pos < src.len() && is_word_start(src[pos]) {
        1 + word_chars(src, pos + 1)
    } else {
        0
    }
}

/// The length of the integer part of a number at `pos`: `0` alone, or a
/// digit from 1 to 9 and the digits after it; 0 if none begins there.
pub open spec fn integer_len(src: Seq<char>, pos: int) -> nat {
    if has(src, pos, '0') {
        1
    } else {
        digits(src, pos)
    }
}

/// The length of the fraction at `pos`: `.` and at least one digit; 0 if
/// none begins there.
pub open spec fn fraction_len(src: Seq<char>, pos: int) -> nat {
    if has(src, pos, '.') && digit_at(src, pos + 1) {
        1 + digits(src, pos + 1)
    } else {
        0
    }
}

/// The length of the sign at `pos`: 1 for `+` or `-`, else 0.
pub open spec fn sign_len(src: Seq<char>, pos: int) -> nat {
    if has(src, pos, '+') || has(src, pos, '-') {
        1
    } else {
        0
    }
}

/// The length of the exponent at `pos`: `e` or `E`, an optional sign, and
/// at least one digit; 0 if none begins there.
pub open spec fn exponent_len(src: Seq<char>, pos: int) -> nat {
    let mantissa = pos + 1 + sign_len(src, pos + 1);
    if (has(src, pos, 'e') || has(src, pos, 'E')) && digit_at(src, mantissa) {
        1 + sign_len(src, pos + 1) + digits(src, mantissa)
    } else {
        0
    }
}

/// The length of the number at `pos`: an optional `-`, an integer part, an
/// optional fraction and an optional exponent, each as long as it can be;
/// 0 if none begins there.
pub open spec fn number_len(src: Seq<char>, pos: int) -> nat {
    let minus: nat = if has(src, pos, '-') {
        1
    } else {
        0
    };
    let whole = integer_len(src, pos + minus);
    let fraction = fraction_len(src, pos + minus + whole);
    let exponent = exponent_len(src, pos + minus + whole + fraction);
    if whole == 0 {
        0
    } else {
        minus + whole + fraction + exponent
    }
}

/// Whether `c` may follow a backslash inside a literal closed by `quote`.
pub open spec fn is_escape(c: char, quote: char) -> bool {
    c == quote || c == '\\' || c == 'b' || c == 'n' || c == 'f' || c == 'r' || c == 't'
}

/// The index after the closing quote of a literal whose body goes on at
/// `j`. The body is made of characters other than the quote and the
/// backslash, and of escapes: a backslash and one escape character.
pub open spec fn quoted_end(src: Seq<char>, j: int, quote: char) -> Option<int>
    decreases src.len() - j,
{
    if j < 0 || j >= src.len() {
        None
    } else if src[j] == quote {
        Some(j + 1)
    } else if src[j] == '\\' {
        if j + 1 < src.len() && is_escape(src[j + 1], quote) {
            quoted_end(src, j + 2, quote)
        } else {
            None
        }
    } else {
        quoted_end(src, j + 1, quote)
    }
}

/// The length of the literal in `quote`s at `pos`; 0 if none begins there.
pub open spec fn quoted_len(src: Seq<char>, pos: int, quote: char) -> nat {
    if has(src, pos, quote) {
        match quoted_end(src, pos + 1, quote) {
            Some(end) => (end - pos) as nat,
            None => 0,
        }
    } else {
        0
    }
}

/// A token's kind and the number of characters it takes.
pub ghost struct Lexeme {
    pub kind: TokenKind,
    pub len: nat,
}

/// The larger of two lengths.
pub open spec fn longer(a: nat, b: nat) -> nat {
    if a >= b {
        a
    } else {
        b
    }
}

/// The token at `pos`: the longest text there that a rule accepts, with the
/// fixed text's kind where one is that long. `None` where no rule accepts
/// any text.
pub open spec fn munch(src: Seq<char>, pos: int) -> Option<Lexeme> {
    let fixed = fixed_len(src, pos);
    let word = word_len(src, pos);
    let number = number_len(src, pos);
    let character = quoted_len(src, pos, '\'');
    let string = quoted_len(src, pos, '"');
    let longest = longer(fixed, longer(word, longer(number, longer(character, string))));
    if longest == 0 {
        None
    } else if fixed == longest {
        Some(Lexeme { kind: fixed_kind(src.subrange(pos, pos + fixed))->0, len: longest })
    } else if word == longest {
        Some(Lexeme { kind: TokenKind::Identifier, len: longest })
    } else if number == longest {
        Some(Lexeme { kind: TokenKind::Number, len: longest })
    } else if character == longest {
        Some(Lexeme { kind: TokenKind::CharLiteral, len: longest })
    } else {
        Some(Lexeme { kind: TokenKind::StringLiteral, len: longest })
    }
}

/// Where a fixed text stands at `pos`, the text of the longest one's length is one.
pub proof fn lemma_fixed_len(src: Seq<char>, pos: int, n: nat)
    ensures
        fixed_len_upto(src, pos, n) <= n,
        fixed_len_upto(src, pos, n) > 0 ==> pos + fixed_len_upto(src, pos, n) <= src.len()
            && fixed_kind(src.subrange(pos, pos + fixed_len_upto(src, pos, n))) is Some,
    decreases n,
{
    if n > 0 {
        lemma_fixed_len(src, pos, (n - 1) as nat);
    }
}

/// A fixed text has at least one character and at most `longest_fixed()`.
pub proof fn lemma_fixed_text_length(text: Seq<char>)
    requires
        fixed_kind(text) is Some,
    ensures
        1 <= text.len() <= longest_fixed(),
{
    reveal_strlit("\n");
    reveal_strlit(" ");
    reveal_strlit("-#");
    reveal_strlit("#-");
    reveal_strlit("::");
    reveal_strlit("(");
    reveal_strlit(")");
    reveal_strlit("[");
    reveal_strlit("]");
    reveal_strlit("{");
    reveal_strlit("}");
    reveal_strlit(".");
    reveal_strlit(",");
    reveal_strlit(";");
    reveal_strlit(":");
    reveal_strlit("func");
    reveal_strlit("var");
    reveal_strlit("const");
    reveal_strlit("struct");
    reveal_strlit("enum");
    reveal_strlit("class");
    reveal_strlit("trait");
    reveal_strlit("pub");
    reveal_strlit("priv");
    reveal_strlit("prot");
    reveal_strlit("if");
    reveal_strlit("else");
    reveal_strlit("elif");
    reveal_strlit("while");
    reveal_strlit("loop");
    reveal_strlit("for");
    reveal_strlit("return");
    reveal_strlit("break");
    reveal_strlit("continue");
    reveal_strlit("use");
    reveal_strlit("over");
    reveal_strlit("extends");
    reveal_strlit("impl");
    reveal_strlit("new");
    reveal_strlit("destroy");
    reveal_strlit("void");
    reveal_strlit("int");
    reveal_strlit("float");
    reveal_strlit("double");
    reveal_strlit("bool");
    reveal_strlit("char");
    reveal_strlit("str");
    reveal_strlit("+");
    reveal_strlit("-");
    reveal_strlit("*");
    reveal_strlit("/");
    reveal_strlit("%");
    reveal_strlit("==");
    reveal_strlit("!=");
    reveal_strlit("&&");
    reveal_strlit("and");
    reveal_strlit("||");
    reveal_strlit("or");
    reveal_strlit("!");
    reveal_strlit("not");
    reveal_strlit("<");
    reveal_strlit(">");
    reveal_strlit("<=");
    reveal_strlit(">=");
    reveal_strlit("=");
    reveal_strlit("+=");
    reveal_strlit("-=");
    reveal_strlit("*=");
    reveal_strlit("/=");
    reveal_strlit("%=");
    reveal_strlit("++");
    reveal_strlit("--");
    reveal_strlit("->");
    reveal_strlit("true");
    reveal_strlit("false");
}

/// Looking at more characters finds a fixed text that is at least as long.
proof fn lemma_fixed_len_upto_grows(src: Seq<char>, pos: int, n: nat, m: nat)
    requires
        n <= m,
    ensures
        fixed_len_upto(src, pos, n) <= fixed_len_upto(src, pos, m),
    decreases m,
{
    lemma_fixed_len(src, pos, n);
    if n < m {
        lemma_fixed_len_upto_grows(src, pos, n, (m - 1) as nat);
    }
}

/// No fixed text that stands at `pos` is longer than `fixed_len(src, pos)`.
pub proof fn lemma_fixed_len_is_longest(src: Seq<char>, pos: int, n: nat)
    requires
        0 <= pos,
        pos + n <= src.len(),
        fixed_kind(src.subrange(pos, pos + n)) is Some,
    ensures
        n <= fixed_len(src, pos),
{
    lemma_fixed_text_length(src.subrange(pos, pos + n));
    lemma_fixed_len_upto_grows(src, pos, n, longest_fixed());
}

/// The token at a place is never empty, and never the sentinel: no rule
/// gives that kind.
pub proof fn lemma_munch_kind(src: Seq<char>, pos: int)
    ensures
        munch(src, pos) matches Some(lexeme) ==> lexeme.kind != TokenKind::Eof && lexeme.len > 0,
{
    lemma_fixed_len(src, pos, longest_fixed());
}

/// Whether the `n` characters of `chars` from `from` on spell `text`.
fn is_text(chars: &Vec<char>, from: usize, n: usize, text: &str) -> (is: bool)
    requires
        from + n <= chars.len(),
    ensures
        is == (chars@.subrange(from as int, from + n) == text@),
{
    if text.unicode_len() != n {
        return false;
    }
    let mut i: usize = 0;
    while i < n
        invariant
            i <= n,
            from + n <= chars.len(),
            text@.len() == n,
            forall|k: int| 0 <= k < i ==> chars@[from + k] == text@[k],
        decreases n - i,
    {
        if chars[from + i] != text.get_char(i) {
            assert(chars@.subrange(from as int, from + n)[i as int] != text@[i as int]);
            return false;
        }
        i = i + 1;
    }
    assert(chars@.subrange(from as int, from + n) =~= text@);
    true
}

/// The kind of the fixed text that the `n` characters from `from` on spell, if they spell one.
fn fixed_token(chars: &Vec<char>, from: usize, n: usize) -> (kind: Option<TokenKind>)
    requires
        from + n <= chars.len(),
    ensures
        kind == fixed_kind(chars@.subrange(from as int, from + n)),
{
    if is_text(chars, from, n, "\n") {
        Some(TokenKind::NewLine)
    } else if is_text(chars, from, n, " ") {
        Some(TokenKind::Whitespace)
    } else if is_text(chars, from, n, "-#") {
        Some(TokenKind::OpenComment)
    } else if is_text(chars, from, n, "#-") {
        Some(TokenKind::CloseComment)
    } else if is_text(chars, from, n, "::") {
        Some(TokenKind::ColonColon)
    } else if is_text(chars, from, n, "(") {
        Some(TokenKind::LeftParen)
    } else if is_text(chars, from, n, ")") {
        Some(TokenKind::RightParen)
    } else if is_text(chars, from, n, "[") {
        Some(TokenKind::LeftBracket)
    } else if is_text(chars, from, n, "]") {
        Some(TokenKind::RightBracket)
    } else if is_text(chars, from, n, "{") {
        Some(TokenKind::LeftBrace)
    } else if is_text(chars, from, n, "}") {
        Some(TokenKind::RightBrace)
    } else if is_text(chars, from, n, ".") {
        Some(TokenKind::Dot)
    } else if is_text(chars, from, n, ",") {
        Some(TokenKind::Comma)
    } else if is_text(chars, from, n, ";") {
        Some(TokenKind::Semicolon)
    } else if is_text(chars, from, n, ":") {
        Some(TokenKind::Colon)
    } else if is_text(chars, from, n, "func") {
        Some(TokenKind::KwFunc)
    } else if is_text(chars, from, n, "var") {
        Some(TokenKind::KwVar)
    } else if is_text(chars, from, n, "const") {
        Some(TokenKind::KwConst)
    } else if is_text(chars, from, n, "struct") {
        Some(TokenKind::KwStruct)
    } else if is_text(chars, from, n, "enum") {
        Some(TokenKind::KwEnum)
    } else if is_text(chars, from, n, "class") {
        Some(TokenKind::KwClass)
    } else if is_text(chars, from, n, "trait") {
        Some(TokenKind::KwTrait)
    } else if is_text(chars, from, n, "pub") {
        Some(TokenKind::KwPub)
    } else if is_text(chars, from, n, "priv") {
        Some(TokenKind::KwPriv)
    } else if is_text(chars, from, n, "prot") {
        Some(TokenKind::KwProt)
    } else if is_text(chars, from, n, "if") {
        Some(TokenKind::KwIf)
    } else if is_text(chars, from, n, "else") {
        Some(TokenKind::KwElse)
    } else if is_text(chars, from, n, "elif") {
        Some(TokenKind::KwElif)
    } else if is_text(chars, from, n, "while") {
        Some(TokenKind::KwWhile)
    } else if is_text(chars, from, n, "loop") {
        Some(TokenKind::KwLoop)
    } else if is_text(chars, from, n, "for") {
        Some(TokenKind::KwFor)
    } else if is_text(chars, from, n, "return") {
        Some(TokenKind::KwReturn)
    } else if is_text(chars, from, n, "break") {
        Some(TokenKind::KwBreak)
    } else if is_text(chars, from, n, "continue") {
        Some(TokenKind::KwContinue)
    } else if is_text(chars, from, n, "use") {
        Some(TokenKind::KwUse)
    } else if is_text(chars, from, n, "over") {
        Some(TokenKind::KwOver)
    } else if is_text(chars, from, n, "extends") {
        Some(TokenKind::KwExtends)
    } else if is_text(chars, from, n, "impl") {
        Some(TokenKind::KwImpl)
    } else if is_text(chars, from, n, "new") {
        Some(TokenKind::KwNew)
    } else if is_text(chars, from, n, "destroy") {
        Some(TokenKind::KwDestroy)
    } else if is_text(chars, from, n, "void") {
        Some(TokenKind::TyVoid)
    } else if is_text(chars, from, n, "int") {
        Some(TokenKind::TyInt)
    } else if is_text(chars, from, n, "float") {
        Some(TokenKind::TyFloat)
    } else if is_text(chars, from, n, "double") {
        Some(TokenKind::TyDouble)
    } else if is_text(chars, from, n, "bool") {
        Some(TokenKind::TyBool)
    } else if is_text(chars, from, n, "char") {
        Some(TokenKind::TyChar)
    } else if is_text(chars, from, n, "str") {
        Some(TokenKind::TyString)
    } else if is_text(chars, from, n, "+") {
        Some(TokenKind::OpAdd)
    } else if is_text(chars, from, n, "-") {
        Some(TokenKind::OpSub)
    } else if is_text(chars, from, n, "*") {
        Some(TokenKind::OpMul)
    } else if is_text(chars, from, n, "/") {
        Some(TokenKind::OpDiv)
    } else if is_text(chars, from, n, "%") {
        Some(TokenKind::OpMod)
    } else if is_text(chars, from, n, "==") {
        Some(TokenKind::OpEq)
    } else if is_text(chars, from, n, "!=") {
        Some(TokenKind::OpNeq)
    } else if is_text(chars, from, n, "&&") {
        Some(TokenKind::OpAnd)
    } else if is_text(chars, from, n, "and") {
        Some(TokenKind::OpAnd)
    } else if is_text(chars, from, n, "||") {
        Some(TokenKind::OpOr)
    } else if is_text(chars, from, n, "or") {
        Some(TokenKind::OpOr)
    } else if is_text(chars, from, n, "!") {
        Some(TokenKind::OpNot)
    } else if is_text(chars, from, n, "not") {
        Some(TokenKind::OpNot)
    } else if is_text(chars, from, n, "<") {
        Some(TokenKind::OpLt)
    } else if is_text(chars, from, n, ">") {
        Some(TokenKind::OpGt)
    } else if is_text(chars, from, n, "<=") {
        Some(TokenKind::OpLe)
    } else if is_text(chars, from, n, ">=") {
        Some(TokenKind::OpGe)
    } else if is_text(chars, from, n, "=") {
        Some(TokenKind::OpAssign)
    } else if is_text(chars, from, n, "+=") {
        Some(TokenKind::OpAddAssign)
    } else if is_text(chars, from, n, "-=") {
        Some(TokenKind::OpSubAssign)
    } else if is_text(chars, from, n, "*=") {
        Some(TokenKind::OpMulAssign)
    } else if is_text(chars, from, n, "/=") {
        Some(TokenKind::OpDivAssign)
    } else if is_text(chars, from, n, "%=") {
        Some(TokenKind::OpModAssign)
    } else if is_text(chars, from, n, "++") {
        Some(TokenKind::OpInc)
    } else if is_text(chars, from, n, "--") {
        Some(TokenKind::OpDec)
    } else if is_text(chars, from, n, "->") {
        Some(TokenKind::OpArrow)
    } else if is_text(chars, from, n, "true") {
        Some(TokenKind::True)
    } else if is_text(chars, from, n, "false") {
        Some(TokenKind::False)
    } else {
        None
    }
}

/// The longest fixed text at `pos`: its length and its kind.
fn fixed_match(chars: &Vec<char>, pos: usize) -> (found: (usize, Option<TokenKind>))
    requires
        pos < chars.len(),
    ensures
        found.0 == fixed_len(chars@, pos as int),
        pos + found.0 <= chars.len(),
        found.0 > 0 ==> found.1 == fixed_kind(chars@.subrange(pos as int, pos + found.0))
            && found.1 is Some,
{
    let mut n: usize = 8;
    while n > 0
        invariant
            n <= 8,
            pos < chars.len(),
            fixed_len_upto(chars@, pos as int, n as nat) == fixed_len(chars@, pos as int),
        decreases n,
    {
        if n <= chars.len() - pos {
            let kind = fixed_token(chars, pos, n);
            if kind.is_some() {
                return (n, kind);
            }
        }
        n = n - 1;
    }
    (0, None)
}

fn digit(c: char) -> (is: bool)
    ensures
        is == is_digit(c),
{
    '0' <= c && c <= '9'
}

fn word_start(c: char) -> (is: bool)
    ensures
        is == is_word_start(c),
{
    ('a' <= c && c <= 'z') || ('A' <= c && c <= 'Z') || c == '_'
}

/// Whether the character at `i` is `c`.
fn has_char(chars: &Vec<char>, i: usize, c: char) -> (is: bool)
    ensures
        is == has(chars@, i as int, c),
{
    i < chars.len() && chars[i] == c
}

/// Whether the character at `i` is a digit.
fn has_digit(chars: &Vec<char>, i: usize) -> (is: bool)
    ensures
        is == digit_at(chars@, i as int),
{
    i < chars.len() && digit(chars[i])
}

/// Counts the digits in a row from `pos` on.
fn count_digits(chars: &Vec<char>, pos: usize) -> (n: usize)
    requires
        pos <= chars.len(),
    ensures
        n == digits(chars@, pos as int),
        pos + n <= chars.len(),
{
    let mut i: usize = pos;
    while i < chars.len() && digit(chars[i])
        invariant
            pos <= i <= chars.len(),
            digits(chars@, pos as int) == (i - pos) + digits(chars@, i as int),
        decreases chars.len() - i,
    {
        i = i + 1;
    }
    i - pos
}

/// Counts the identifier characters in a row from `pos` on.
fn count_word_chars(chars: &Vec<char>, pos: usize) -> (n: usize)
    requires
        pos <= chars.len(),
    ensures
        n == word_chars(chars@, pos as int),
        pos + n <= chars.len(),
{
    let mut i: usize = pos;
    while i < chars.len() && (word_start(chars[i]) || digit(chars[i]))
        invariant
            pos <= i <= chars.len(),
            word_chars(chars@, pos as int) == (i - pos) + word_chars(chars@, i as int),
        decreases chars.len() - i,
    {
        i = i + 1;
    }
    i - pos
}

/// The length of the identifier at `pos`.
fn word_match(chars: &Vec<char>, pos: usize) -> (n: usize)
    requires
        pos < chars.len(),
    ensures
        n == word_len(chars@, pos as int),
        pos + n <= chars.len(),
{
    if word_start(chars[pos]) {
        1 + count_word_chars(chars, pos + 1)
    } else {
        0
    }
}

/// The length of the integer part of a number at `pos`.
fn integer_match(chars: &Vec<char>, pos: usize) -> (n: usize)
    requires
        pos <= chars.len(),
    ensures
        n == integer_len(chars@, pos as int),
        pos + n <= chars.len(),
{
    if has_char(chars, pos, '0') {
        1
    } else {
        count_digits(chars, pos)
    }
}

/// The length of the fraction at `pos`.
fn fraction_match(chars: &Vec<char>, pos: usize) -> (n: usize)
    requires
        pos <= chars.len(),
    ensures
        n == fraction_len(chars@, pos as int),
        pos + n <= chars.len(),
{
    if has_char(chars, pos, '.') && has_digit(chars, pos + 1) {
        1 + count_digits(chars, pos + 1)
    } else {
        0
    }
}

/// The length of the sign at `pos`.
fn sign_match(chars: &Vec<char>, pos: usize) -> (n: usize)
    requires
        pos <= chars.len(),
    ensures
        n == sign_len(chars@, pos as int),
        pos + n <= chars.len(),
{
    if has_char(chars, pos, '+') || has_char(chars, pos, '-') {
        1
    } else {
        0
    }
}

/// The length of the exponent at `pos`.
fn exponent_match(chars: &Vec<char>, pos: usize) -> (n: usize)
    requires
        pos <= chars.len(),
    ensures
        n == exponent_len(chars@, pos as int),
        pos + n <= chars.len(),
{
    if has_char(chars, pos, 'e') || has_char(chars, pos, 'E') {
        let sign = sign_match(chars, pos + 1);
        let mantissa: usize = pos + 1 + sign;
        if has_digit(chars, mantissa) {
            1 + sign + count_digits(chars, mantissa)
        } else {
            0
        }
    } else {
        0
    }
}

/// The length of the number at `pos`.
fn number_match(chars: &Vec<char>, pos: usize) -> (n: usize)
    requires
        pos < chars.len(),
    ensures
        n == number_len(chars@, pos as int),
        pos + n <= chars.len(),
{
    let minus: usize = if has_char(chars, pos, '-') {
        1
    } else {
        0
    };
    let whole = integer_match(chars, pos + minus);
    if whole == 0 {
        return 0;
    }
    let fraction = fraction_match(chars, pos + minus + whole);
    let exponent = exponent_match(chars, pos + minus + whole + fraction);
    minus + whole + fraction + exponent
}

fn escape(c: char, quote: char) -> (is: bool)
    ensures
        is == is_escape(c, quote),
{
    c == quote || c == '\\' || c == 'b' || c == 'n' || c == 'f' || c == 'r' || c == 't'
}

/// The length of the literal in `quote`s at `pos`.
fn quoted_match(chars: &Vec<char>, pos: usize, quote: char) -> (n: usize)
    requires
        pos < chars.len(),
    ensures
        n == quoted_len(chars@, pos as int, quote),
        pos + n <= chars.len(),
{
    if chars[pos] != quote {
        return 0;
    }
    let mut j: usize = pos + 1;
    while j < chars.len()
        invariant
            pos < j <= chars.len(),
            chars@[pos as int] == quote,
            quoted_end(chars@, j as int, quote) == quoted_end(chars@, pos + 1, quote),
        decreases chars.len() - j,
    {
        let c = chars[j];
        if c == quote {
            return j + 1 - pos;
        } else if c == '\\' {
            if j + 1 < chars.len() && escape(chars[j + 1], quote) {
                j = j + 2;
            } else {
                return 0;
            }
        } else {
            j = j + 1;
        }
    }
    0
}

/// The token at `pos`: its kind and its length, if any rule accepts a text there.
pub fn next_lexeme(chars: &Vec<char>, pos: usize) -> (found: Option<(TokenKind, usize)>)
    requires
        pos < chars.len(),
    ensures
        match munch(chars@, pos as int) {
            Some(lexeme) => found == Some((lexeme.kind, lexeme.len as usize)) && 0 < lexeme.len
                && pos + lexeme.len <= chars.len(),
            None => found is None,
        },
{
    let (fixed, kind) = fixed_match(chars, pos);
    let word = word_match(chars, pos);
    let number = number_match(chars, pos);
    let character = quoted_match(chars, pos, '\'');
    let string = quoted_match(chars, pos, '"');
    let mut longest: usize = fixed;
    if word > longest {
        longest = word;
    }
    if number > longest {
        longest = number;
    }
    if character > longest {
        longest = character;
    }
    if string > longest {
        longest = string;
    }
    if longest == 0 {
        None
    } else if fixed == longest {
        match kind {
            Some(kind) => Some((kind, longest)),
            None => None,
        }
    } else if word == longest {
        Some((TokenKind::Identifier, longest))
    } else if number == longest {
        Some((TokenKind::Number, longest))
    } else if character == longest {
        Some((TokenKind::CharLiteral, longest))
    } else {
        Some((TokenKind::StringLiteral, longest))
    }
}

} // verus!
