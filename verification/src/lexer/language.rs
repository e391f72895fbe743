//! Which texts are tokens, said without a scan, and the law of the longest
//! match: the token that the rules take at a place is the longest text
//! there that is a token, and no longer text there is one.
use crate::lexer::rules::{
    digit_at, digits, exponent_len, fixed_kind, fixed_len, fraction_len, has, integer_len,
    is_digit, is_escape, is_word_char, is_word_start, lemma_fixed_len, lemma_fixed_len_is_longest,
    longer, longest_fixed, munch, number_len, quoted_end, quoted_len, sign_len, word_chars,
    word_len,
};
use crate::lexer::tokens::TokenKind;
use vstd::prelude::*;

verus! {

/// An identifier: a letter or `_`, then letters, `_` and digits.
pub open spec fn is_identifier(text: Seq<char>) -> bool {
    &&& text.len() >= 1
    &&& is_word_start(text[0])
    &&& forall|k: int| 1 <= k < text.len() ==> is_word_char(#[trigger] text[k])
}

/// Whether the characters of `text` from `from` up to `to` are digits.
pub open spec fn all_digits(text: Seq<char>, from: int, to: int) -> bool {
    forall|k: int| from <= k < to ==> is_digit(#[trigger] text[k])
}

/// How a number is divided: whether it has a `-`, the digits of its
/// integer part, the digits after its point (0 without a fraction), the
/// digits of its exponent (0 without one), and whether the exponent has a sign.
pub ghost struct NumberParts {
    pub minus: bool,
    pub whole: nat,
    pub fraction: nat,
    pub exponent: nat,
    pub signed: bool,
}

impl NumberParts {
    /// The index at which the integer part begins.
    pub open spec fn whole_start(self) -> int {
        if self.minus {
            1
        } else {
            0
        }
    }

    /// The index after the integer part.
    pub open spec fn whole_end(self) -> int {
        self.whole_start() + self.whole
    }

    /// The index after the fraction.
    pub open spec fn fraction_end(self) -> int {
        if self.fraction > 0 {
            self.whole_end() + 1 + self.fraction
        } else {
            self.whole_end()
        }
    }

    /// The index at which the digits of the exponent begin.
    pub open spec fn exponent_start(self) -> int {
        if self.signed {
            self.fraction_end() + 2
        } else {
            self.fraction_end() + 1
        }
    }

    /// The index after the exponent: the length of the number.
    pub open spec fn end(self) -> int {
        if self.exponent > 0 {
            self.exponent_start() + self.exponent
        } else {
            self.fraction_end()
        }
    }
}

/// Whether `text` is a number divided as `parts` says: an optional `-`;
/// `0` alone or a digit from 1 to 9 and more digits; an optional point
/// with at least one digit; an optional `e` or `E` with an optional sign
/// and at least one digit.
pub open spec fn reads_as_number(text: Seq<char>, parts: NumberParts) -> bool {
    &&& text.len() == parts.end()
    &&& parts.minus ==> text[0] == '-'
    &&& parts.whole >= 1
    &&& all_digits(text, parts.whole_start(), parts.whole_end())
    &&& parts.whole > 1 ==> text[parts.whole_start()] != '0'
    &&& parts.fraction > 0 ==> text[parts.whole_end()] == '.' && all_digits(
        text,
        parts.whole_end() + 1,
        parts.fraction_end(),
    )
    &&& parts.exponent == 0 ==> !parts.signed
    &&& parts.exponent > 0 ==> {
        &&& text[parts.fraction_end()] == 'e' || text[parts.fraction_end()] == 'E'
        &&& parts.signed ==> text[parts.fraction_end() + 1] == '+' || text[parts.fraction_end()
            + 1] == '-'
        &&& all_digits(text, parts.exponent_start(), parts.end())
    }
}

/// A number: a text that reads as one in some division.
pub open spec fn is_number(text: Seq<char>) -> bool {
    exists|parts: NumberParts| reads_as_number(text, parts)
}

/// Whether the characters of `text` from `j` up to `end` are the body of a
/// literal in `quote`s: characters other than the quote and the
/// backslash, and escapes, each a backslash and one escape character.
pub open spec fn is_body(text: Seq<char>, j: int, end: int, quote: char) -> bool
    decreases end - j,
{
    if j >= end {
        j == end
    } else if text[j] == '\\' {
        j + 1 < end && is_escape(text[j + 1], quote) && is_body(text, j + 2, end, quote)
    } else {
        text[j] != quote && is_body(text, j + 1, end, quote)
    }
}

/// A literal in `quote`s: the quote, a body, and the quote.
pub open spec fn is_quoted(text: Seq<char>, quote: char) -> bool {
    &&& text.len() >= 2
    &&& text[0] == quote
    &&& text[text.len() - 1] == quote
    &&& is_body(text, 1, text.len() - 1, quote)
}

/// The kind of the pattern that `text` is a text of, if it is one of any.
pub open spec fn pattern_kind(text: Seq<char>) -> Option<TokenKind> {
    if is_identifier(text) {
        Some(TokenKind::Identifier)
    } else if is_number(text) {
        Some(TokenKind::Number)
    } else if is_quoted(text, '\'') {
        Some(TokenKind::CharLiteral)
    } else if is_quoted(text, '"') {
        Some(TokenKind::StringLiteral)
    } else {
        None
    }
}

/// The kind of token that `text` is, if it is one: a fixed text's kind
/// first, then a pattern's.
pub open spec fn token_kind(text: Seq<char>) -> Option<TokenKind> {
    match fixed_kind(text) {
        Some(kind) => Some(kind),
        None => pattern_kind(text),
    }
}

/// The identifier characters counted from `pos` on are identifier
/// characters of the source, and the one after them is none.
pub proof fn lemma_word_chars(src: Seq<char>, pos: int)
    requires
        0 <= pos,
    ensures
        pos + word_chars(src, pos) <= src.len() || word_chars(src, pos) == 0,
        forall|k: int| pos <= k < pos + word_chars(src, pos) ==> is_word_char(#[trigger] src[k]),
        !(pos + word_chars(src, pos) < src.len() && is_word_char(src[pos + word_chars(src, pos)])),
    decreases src.len() - pos,
{
    if pos < src.len() && is_word_char(src[pos]) {
        lemma_word_chars(src, pos + 1);
    }
}

/// The digits counted from `pos` on are digits of the source, and the
/// character after them is none.
pub proof fn lemma_digits(src: Seq<char>, pos: int)
    requires
        0 <= pos,
    ensures
        pos + digits(src, pos) <= src.len() || digits(src, pos) == 0,
        all_digits(src, pos, pos + digits(src, pos)),
        !digit_at(src, pos + digits(src, pos)),
    decreases src.len() - pos,
{
    if digit_at(src, pos) {
        lemma_digits(src, pos + 1);
    }
}

/// Identifier characters in a row are all counted.
pub proof fn lemma_word_chars_longest(src: Seq<char>, pos: int, n: nat)
    requires
        0 <= pos,
        pos + n <= src.len(),
        forall|k: int| pos <= k < pos + n ==> is_word_char(#[trigger] src[k]),
    ensures
        n <= word_chars(src, pos),
    decreases n,
{
    if n > 0 {
        lemma_word_chars_longest(src, pos + 1, (n - 1) as nat);
    }
}

/// Digits in a row are all counted.
pub proof fn lemma_digits_longest(src: Seq<char>, pos: int, n: nat)
    requires
        0 <= pos,
        pos + n <= src.len(),
        all_digits(src, pos, pos + n),
    ensures
        n <= digits(src, pos),
    decreases n,
{
    if n > 0 {
        lemma_digits_longest(src, pos + 1, (n - 1) as nat);
    }
}

/// The identifier that the rules take at `pos` is an identifier, and no
/// longer text there is one.
pub proof fn lemma_word(src: Seq<char>, pos: int)
    requires
        0 <= pos < src.len(),
    ensures
        pos + word_len(src, pos) <= src.len(),
        word_len(src, pos) > 0 ==> is_identifier(src.subrange(pos, pos + word_len(src, pos))),
        forall|n: nat|
            pos + n <= src.len() && is_identifier(#[trigger] src.subrange(pos, pos + n)) ==> n
                <= word_len(src, pos),
{
    lemma_word_chars(src, pos + 1);
    assert forall|n: nat|
        pos + n <= src.len() && is_identifier(#[trigger] src.subrange(pos, pos + n)) implies n
        <= word_len(src, pos) by {
        let text = src.subrange(pos, pos + n);
        assert(text[0] == src[pos]);
        assert forall|k: int| pos + 1 <= k < pos + n implies is_word_char(#[trigger] src[k]) by {
            assert(text[k - pos] == src[k]);
        }
        lemma_word_chars_longest(src, pos + 1, (n - 1) as nat);
    }
}

/// Where the rules find the end of a literal, the characters up to its
/// closing quote are a body.
pub proof fn lemma_quoted_end_is_body(src: Seq<char>, j: int, quote: char)
    requires
        0 <= j,
        quoted_end(src, j, quote) is Some,
    ensures
        j < quoted_end(src, j, quote)->0 <= src.len(),
        src[quoted_end(src, j, quote)->0 - 1] == quote,
        is_body(src, j, quoted_end(src, j, quote)->0 - 1, quote),
    decreases src.len() - j,
{
    if src[j] == quote {
    } else if src[j] == '\\' {
        lemma_quoted_end_is_body(src, j + 2, quote);
    } else {
        lemma_quoted_end_is_body(src, j + 1, quote);
    }
}

/// Where a body is followed by the quote, the rules find the end of the
/// literal there.
pub proof fn lemma_body_ends(src: Seq<char>, j: int, end: int, quote: char)
    requires
        quote != '\\',
        0 <= j <= end < src.len(),
        is_body(src, j, end, quote),
        src[end] == quote,
    ensures
        quoted_end(src, j, quote) == Some(end + 1),
    decreases end - j,
{
    if j < end {
        if src[j] == '\\' {
            lemma_body_ends(src, j + 2, end, quote);
        } else {
            lemma_body_ends(src, j + 1, end, quote);
        }
    }
}

/// A body of a part of the source is a body of the source, and the other way round.
pub proof fn lemma_body_of_part(src: Seq<char>, pos: int, n: nat, j: int, end: int, quote: char)
    requires
        0 <= pos,
        pos + n <= src.len(),
        0 <= j,
        end <= n,
    ensures
        is_body(src.subrange(pos, pos + n), j, end, quote) == is_body(
            src,
            pos + j,
            pos + end,
            quote,
        ),
    decreases end - j,
{
    let text = src.subrange(pos, pos + n);
    if j < end {
        assert(text[j] == src[pos + j]);
        if text[j] == '\\' {
            if j + 1 < end {
                assert(text[j + 1] == src[pos + j + 1]);
                lemma_body_of_part(src, pos, n, j + 2, end, quote);
            }
        } else {
            lemma_body_of_part(src, pos, n, j + 1, end, quote);
        }
    }
}

/// The literal that the rules take at `pos` is a literal in the quotes,
/// and it is the only text there that is one.
pub proof fn lemma_quoted(src: Seq<char>, pos: int, quote: char)
    requires
        quote != '\\',
        0 <= pos < src.len(),
    ensures
        pos + quoted_len(src, pos, quote) <= src.len(),
        quoted_len(src, pos, quote) > 0 ==> is_quoted(
            src.subrange(pos, pos + quoted_len(src, pos, quote)),
            quote,
        ),
        forall|n: nat|
            pos + n <= src.len() && is_quoted(#[trigger] src.subrange(pos, pos + n), quote) ==> n
                == quoted_len(src, pos, quote),
{
    let found = quoted_len(src, pos, quote);
    if has(src, pos, quote) && quoted_end(src, pos + 1, quote) is Some {
        lemma_quoted_end_is_body(src, pos + 1, quote);
        lemma_body_of_part(src, pos, found, 1, found - 1, quote);
    }
    assert forall|n: nat|
        pos + n <= src.len() && is_quoted(#[trigger] src.subrange(pos, pos + n), quote) implies n
        == found by {
        let text = src.subrange(pos, pos + n);
        assert(text[0] == src[pos]);
        assert(text[n - 1] == src[pos + n - 1]);
        lemma_body_of_part(src, pos, n, 1, n - 1, quote);
        lemma_body_ends(src, pos + 1, pos + n - 1, quote);
    }
}

/// Digits of a part of the source are digits of the source.
pub proof fn lemma_digits_of_part(src: Seq<char>, pos: int, n: nat, from: int, to: int)
    requires
        0 <= pos,
        pos + n <= src.len(),
        0 <= from,
        to <= n,
    ensures
        all_digits(src.subrange(pos, pos + n), from, to) == all_digits(src, pos + from, pos + to),
{
    let text = src.subrange(pos, pos + n);
    if all_digits(text, from, to) {
        assert forall|k: int| pos + from <= k < pos + to implies is_digit(#[trigger] src[k]) by {
            assert(text[k - pos] == src[k]);
        }
    }
    if all_digits(src, pos + from, pos + to) {
        assert forall|k: int| from <= k < to implies is_digit(#[trigger] text[k]) by {
            assert(text[k] == src[pos + k]);
        }
    }
}

/// How the rules divide the number that they take at `pos`.
pub open spec fn parts_at(src: Seq<char>, pos: int) -> NumberParts {
    let minus = has(src, pos, '-');
    let start = if minus {
        pos + 1
    } else {
        pos
    };
    let whole = integer_len(src, start);
    let fraction = fraction_len(src, start + whole);
    let exponent = exponent_len(src, start + whole + fraction);
    let sign = sign_len(src, start + whole + fraction + 1);
    NumberParts {
        minus,
        whole,
        fraction: if fraction > 0 {
            (fraction - 1) as nat
        } else {
            0
        },
        exponent: if exponent > 0 {
            (exponent - 1 - sign) as nat
        } else {
            0
        },
        signed: exponent > 0 && sign == 1,
    }
}

/// The number that the rules take at `pos` is a number.
pub proof fn lemma_number_is_number(src: Seq<char>, pos: int)
    requires
        0 <= pos < src.len(),
        number_len(src, pos) > 0,
    ensures
        pos + number_len(src, pos) <= src.len(),
        reads_as_number(src.subrange(pos, pos + number_len(src, pos)), parts_at(src, pos)),
{
    let parts = parts_at(src, pos);
    let n = number_len(src, pos);
    let a = pos + parts.whole_start();
    let b = a + integer_len(src, a);
    let c = b + fraction_len(src, b);
    lemma_digits(src, a);
    lemma_digits(src, b + 1);
    lemma_digits(src, c + 1);
    lemma_digits(src, c + 2);
    assert(pos + n <= src.len());
    let text = src.subrange(pos, pos + n);
    lemma_digits_of_part(src, pos, n, parts.whole_start(), parts.whole_end());
    lemma_digits_of_part(src, pos, n, parts.whole_end() + 1, parts.fraction_end());
    lemma_digits_of_part(src, pos, n, parts.exponent_start(), parts.end());
    assert(parts.minus ==> text[0] == src[pos]);
    assert(text[parts.whole_start()] == src[a]);
    if parts.fraction > 0 {
        assert(text[parts.whole_end()] == src[b]);
    }
    if parts.exponent > 0 {
        assert(text[parts.fraction_end()] == src[c]);
        if parts.signed {
            assert(text[parts.fraction_end() + 1] == src[c + 1]);
        }
    }
}

/// No number at `pos` is longer than the one that the rules take there.
pub proof fn lemma_number_is_longest(src: Seq<char>, pos: int, n: nat, parts: NumberParts)
    requires
        0 <= pos,
        pos + n <= src.len(),
        reads_as_number(src.subrange(pos, pos + n), parts),
    ensures
        n <= number_len(src, pos),
{
    let text = src.subrange(pos, pos + n);
    let m = parts.whole_start();
    let a = pos + m;
    assert(text[0] == src[pos]);
    assert(is_digit(text[m]));
    assert(text[m] == src[a]);
    lemma_digits_of_part(src, pos, n, m, parts.whole_end());
    lemma_digits(src, a);
    lemma_digits_longest(src, a, parts.whole);
    let whole = integer_len(src, a);
    assert(parts.whole <= whole);
    if parts.whole < whole {
        assert(is_digit(src[a + parts.whole]));
        if parts.fraction > 0 || parts.exponent > 0 {
            assert(text[parts.whole_end()] == src[a + parts.whole]);
        }
    } else {
        let b = a + whole;
        let fraction = fraction_len(src, b);
        if parts.fraction > 0 {
            assert(text[parts.whole_end()] == src[b]);
            assert(is_digit(text[parts.whole_end() + 1]));
            assert(text[parts.whole_end() + 1] == src[b + 1]);
            lemma_digits_of_part(src, pos, n, parts.whole_end() + 1, parts.fraction_end());
            lemma_digits(src, b + 1);
            lemma_digits_longest(src, b + 1, parts.fraction);
            if parts.fraction + 1 < fraction {
                assert(is_digit(src[b + 1 + parts.fraction]));
                if parts.exponent > 0 {
                    assert(text[parts.fraction_end()] == src[b + 1 + parts.fraction]);
                }
            }
        } else if parts.exponent > 0 {
            assert(text[parts.fraction_end()] == src[b]);
        }
        if parts.exponent > 0 && parts.fraction_end() == m + whole + fraction {
            let c = b + fraction;
            assert(text[parts.fraction_end()] == src[c]);
            assert(is_digit(text[parts.exponent_start()]));
            assert(text[parts.exponent_start()] == src[pos + parts.exponent_start()]);
            if parts.signed {
                assert(text[parts.fraction_end() + 1] == src[c + 1]);
            }
            lemma_digits_of_part(src, pos, n, parts.exponent_start(), parts.end());
            lemma_digits(src, pos + parts.exponent_start());
            lemma_digits_longest(src, pos + parts.exponent_start(), parts.exponent);
        }
    }
}

/// The number that the rules take at `pos` is a number, and no longer
/// text there is one.
pub proof fn lemma_number(src: Seq<char>, pos: int)
    requires
        0 <= pos < src.len(),
    ensures
        pos + number_len(src, pos) <= src.len(),
        number_len(src, pos) > 0 ==> is_number(src.subrange(pos, pos + number_len(src, pos))),
        forall|n: nat|
            pos + n <= src.len() && is_number(#[trigger] src.subrange(pos, pos + n)) ==> n
                <= number_len(src, pos),
{
    if number_len(src, pos) > 0 {
        lemma_number_is_number(src, pos);
    }
    assert forall|n: nat|
        pos + n <= src.len() && is_number(#[trigger] src.subrange(pos, pos + n)) implies n
        <= number_len(src, pos) by {
        let text = src.subrange(pos, pos + n);
        let parts = choose|parts: NumberParts| reads_as_number(text, parts);
        lemma_number_is_longest(src, pos, n, parts);
    }
}

/// The law of the longest match: the token that the rules take at a place
/// is a token of its kind, and no longer text at that place is a token;
/// where they take none, no text at that place is a token.
pub proof fn lemma_longest_match(src: Seq<char>, pos: int)
    requires
        0 <= pos < src.len(),
    ensures
        match munch(src, pos) {
            Some(lexeme) => {
                &&& 0 < lexeme.len
                &&& pos + lexeme.len <= src.len()
                &&& token_kind(src.subrange(pos, pos + lexeme.len)) == Some(lexeme.kind)
                &&& forall|n: nat|
                    lexeme.len < n && pos + n <= src.len() ==> token_kind(
                        #[trigger] src.subrange(pos, pos + n),
                    ) is None
            },
            None => forall|n: nat|
                0 < n && pos + n <= src.len() ==> token_kind(#[trigger] src.subrange(pos, pos + n))
                    is None,
        },
{
    lemma_fixed_len(src, pos, longest_fixed());
    lemma_word(src, pos);
    lemma_number(src, pos);
    lemma_quoted(src, pos, '\'');
    lemma_quoted(src, pos, '"');
    assert forall|n: nat|
        pos + n <= src.len() && fixed_kind(#[trigger] src.subrange(pos, pos + n)) is Some implies n
        <= fixed_len(src, pos) by {
        lemma_fixed_len_is_longest(src, pos, n);
    }
}

} // verus!
