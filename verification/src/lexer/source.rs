use vstd::prelude::*;

verus! {

/// `String::push` of std appends the character to the end of the string:
/// the string's characters afterwards are those before, then `c`.
pub assume_specification[ std::string::String::push ](text: &mut std::string::String, c: char)
    ensures
        final(text)@ == old(text)@.push(c),
;

/// The characters of a text, in order.
pub fn characters(text: &str) -> (chars: Vec<char>)
    ensures
        chars@ == text@,
{
    let mut chars: Vec<char> = Vec::new();
    for c in it: text.chars()
        invariant
            it.seq() == text@,
            chars@ == it.seq().take(it.index()),
    {
        chars.push(c);
    }
    chars
}

/// The text made of the characters of `chars` from `from` up to `to`.
pub fn text_of(chars: &Vec<char>, from: usize, to: usize) -> (text: String)
    requires
        from <= to <= chars.len(),
    ensures
        text@ == chars@.subrange(from as int, to as int),
{
    let mut text = String::new();
    let mut i: usize = from;
    while i < to
        invariant
            from <= i <= to <= chars.len(),
            text@ == chars@.subrange(from as int, i as int),
        decreases to - i,
    {
        text.push(chars[i]);
        i = i + 1;
    }
    text
}

/// The number of bytes of a character in UTF-8: 1 below U+0080, 2 below
/// U+0800, 3 below U+10000, else 4.
pub open spec fn utf8_len(c: char) -> nat {
    if (c as u32) < 0x80 {
        1
    } else if (c as u32) < 0x800 {
        2
    } else if (c as u32) < 0x10000 {
        3
    } else {
        4
    }
}

/// The byte offset of the character at `pos`: the number of bytes of the
/// characters before it.
pub open spec fn offset(src: Seq<char>, pos: int) -> nat
    decreases pos,
{
    if pos <= 0 {
        0
    } else {
        offset(src, pos - 1) + utf8_len(src[pos - 1])
    }
}

/// A later character is at a later byte: each character has at least one byte.
pub proof fn lemma_offset_grows(src: Seq<char>, from: int, to: int)
    requires
        0 <= from <= to,
    ensures
        offset(src, from) + (to - from) <= offset(src, to),
    decreases to - from,
{
    if from < to {
        lemma_offset_grows(src, from, to - 1);
    }
}

/// The offset counted from the second character on is less by the bytes
/// of the first.
proof fn lemma_offset_without_first(src: Seq<char>, pos: int)
    requires
        1 <= pos <= src.len(),
    ensures
        offset(src, pos) == utf8_len(src[0]) + offset(src.drop_first(), pos - 1),
    decreases pos,
{
    if pos > 1 {
        lemma_offset_without_first(src, pos - 1);
        assert(src.drop_first()[pos - 2] == src[pos - 1]);
    } else {
        assert(offset(src, 0) == 0);
        assert(offset(src.drop_first(), 0) == 0);
    }
}

/// The byte offset of the end of a text is the length of its UTF-8 encoding.
pub proof fn lemma_offset_is_encoded_length(src: Seq<char>)
    ensures
        offset(src, src.len() as int) == vstd::utf8::encode_utf8(src).len(),
    decreases src.len(),
{
    if src.len() > 0 {
        vstd::utf8::char_is_scalar(src[0]);
        lemma_offset_is_encoded_length(src.drop_first());
        lemma_offset_without_first(src, src.len() as int);
    }
}

/// The number of bytes of a character in UTF-8.
pub fn utf8_length(c: char) -> (n: usize)
    ensures
        n == utf8_len(c),
{
    let code: u32 = c as u32;
    if code < 0x80 {
        1
    } else if code < 0x800 {
        2
    } else if code < 0x10000 {
        3
    } else {
        4
    }
}

/// The byte offset of the character at `to`, given that of the character at `from`.
pub fn offset_after(chars: &Vec<char>, from: usize, to: usize, start: usize) -> (end: usize)
    requires
        from <= to <= chars.len(),
        start == offset(chars@, from as int),
        offset(chars@, chars.len() as int) <= usize::MAX,
    ensures
        end == offset(chars@, to as int),
{
    let mut end: usize = start;
    let mut i: usize = from;
    while i < to
        invariant
            from <= i <= to <= chars.len(),
            end == offset(chars@, i as int),
            offset(chars@, chars.len() as int) <= usize::MAX,
        decreases to - i,
    {
        proof {
            lemma_offset_grows(chars@, i + 1, chars.len() as int);
        }
        end = end + utf8_length(chars[i]);
        i = i + 1;
    }
    end
}

} // verus!
