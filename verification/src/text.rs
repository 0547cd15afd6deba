//! Character-level helpers between `str`/`String` and sequences of `char`.
use vstd::prelude::*;

verus! {

broadcast use vstd::string::group_string_axioms;

/// The characters of `s`, in order.
pub fn chars_of(s: &str) -> (v: Vec<char>)
    ensures
        v@ == s@,
{
    let mut v: Vec<char> = Vec::new();
    for c in it: s.chars()
        invariant
            v@ == it.seq().take(it.index() as int),
    {
        v.push(c);
    }
    v
}

/// Appends one character to a string (`String::push`).
#[verifier::external_body]
pub(crate) fn push_char(s: &mut String, c: char)
    ensures
        final(s)@ == old(s)@.push(c),
{
    s.push(c);
}

/// Appends a string slice to a string (`String::push_str`).
#[verifier::external_body]
pub(crate) fn push_str(s: &mut String, t: &str)
    ensures
        final(s)@ == old(s)@ + t@,
{
    s.push_str(t);
}

/// The string whose characters are `v`.
pub fn string_of(v: &Vec<char>) -> (s: String)
    ensures
        s@ == v@,
{
    let mut s = String::new();
    for i in 0..v.len()
        invariant
            s@ == v@.take(i as int),
    {
        push_char(&mut s, v[i]);
        assert(v@.take(i + 1) == v@.take(i as int).push(v@[i as int]));
    }
    assert(v@.take(v.len() as int) == v@);
    s
}

/// A fresh string with the characters of `s` (`str::to_string`).
pub fn owned(s: &str) -> (r: String)
    ensures
        r@ == s@,
{
    let mut r = String::new();
    push_str(&mut r, s);
    assert(r@ == s@);
    r
}

/// Appends the characters of `t` to `v`.
pub fn extend_chars(v: &mut Vec<char>, t: &str)
    ensures
        final(v)@ == old(v)@ + t@,
{
    let cs = chars_of(t);
    let ghost start = v@;
    for i in 0..cs.len()
        invariant
            cs@ == t@,
            v@ == start + cs@.take(i as int),
    {
        v.push(cs[i]);
        assert(cs@.take(i + 1) == cs@.take(i as int).push(cs@[i as int]));
    }
    assert(cs@.take(cs.len() as int) == cs@);
}

/// Appends the characters of `t` to `v`.
pub fn extend_vec(v: &mut Vec<char>, t: &Vec<char>)
    ensures
        final(v)@ == old(v)@ + t@,
{
    let ghost start = v@;
    for i in 0..t.len()
        invariant
            v@ == start + t@.take(i as int),
    {
        v.push(t[i]);
        assert(t@.take(i + 1) == t@.take(i as int).push(t@[i as int]));
    }
    assert(t@.take(t.len() as int) == t@);
}

/// Whether two string slices hold the same characters (`str == str`).
#[verifier::external_body]
pub(crate) fn str_eq(a: &str, b: &str) -> (r: bool)
    ensures
        r == (a@ == b@),
{
    a == b
}

/// Whether `s` contains the character `c`.
pub fn str_contains_char(s: &str, c: char) -> (r: bool)
    ensures
        r == s@.contains(c),
{
    let cs = chars_of(s);
    for i in 0..cs.len()
        invariant
            cs@ == s@,
            forall|j: int| 0 <= j < i ==> cs@[j] != c,
    {
        if cs[i] == c {
            assert(s@[i as int] == c);
            return true;
        }
    }
    false
}

/// The characters with the Unicode `White_Space` property (PropList.txt): the controls
/// U+0009..=U+000D, the space, U+0085, the no-break space, the Ogham space mark, the spaces
/// U+2000..=U+200A, the line and paragraph separators, the narrow no-break space, the medium
/// mathematical space and the ideographic space.
pub open spec fn white_space(c: char) -> bool {
    ('\u{9}' <= c && c <= '\u{d}') || c == ' ' || c == '\u{85}' || c == '\u{a0}' || c == '\u{1680}'
        || ('\u{2000}' <= c && c <= '\u{200a}') || c == '\u{2028}' || c == '\u{2029}' || c == '\u{202f}'
        || c == '\u{205f}' || c == '\u{3000}'
}

/// Whether `c` has the Unicode `White_Space` property, as `char::is_whitespace` says.
pub fn is_whitespace(c: char) -> (r: bool)
    ensures
        r == white_space(c),
{
    ('\u{9}' <= c && c <= '\u{d}') || c == ' ' || c == '\u{85}' || c == '\u{a0}' || c == '\u{1680}'
        || ('\u{2000}' <= c && c <= '\u{200a}') || c == '\u{2028}' || c == '\u{2029}' || c == '\u{202f}'
        || c == '\u{205f}' || c == '\u{3000}'
}

/// The number of bytes of `c` in UTF-8 (`char::len_utf8`).
pub open spec fn utf8_width(c: char) -> nat {
    if (c as u32) < 0x80 {
        1
    } else if (c as u32) < 0x800 {
        2
    } else if (c as u32) < 0x10000 {
        3
    } else {
        4
    }
}

/// The UTF-8 byte offset of the character at index `i`.
pub open spec fn utf8_offset(cs: Seq<char>, i: int) -> nat
    decreases i,
{
    if i <= 0 {
        0
    } else {
        utf8_offset(cs, i - 1) + utf8_width(cs[i - 1])
    }
}

/// The number of bytes of `c` in UTF-8.
pub fn utf8_width_of(c: char) -> (r: usize)
    ensures
        r == utf8_width(c),
{
    let code = c as u32;
    if code < 0x80 {
        1
    } else if code < 0x800 {
        2
    } else if code < 0x10000 {
        3
    } else {
        4
    }
}

/// The offset of a character counted from the second character on, plus the width of the first.
proof fn lemma_offset_from_second(cs: Seq<char>, i: int)
    requires
        1 <= i <= cs.len(),
    ensures
        utf8_offset(cs, i) == utf8_width(cs[0]) + utf8_offset(cs.drop_first(), i - 1),
    decreases i,
{
    let d = cs.drop_first();
    assert(utf8_offset(cs, i) == utf8_offset(cs, i - 1) + utf8_width(cs[i - 1]));
    if i > 1 {
        lemma_offset_from_second(cs, i - 1);
        assert(d[i - 2] == cs[i - 1]);
        assert(utf8_offset(d, i - 1) == utf8_offset(d, i - 2) + utf8_width(d[i - 2]));
    } else {
        assert(utf8_offset(cs, 0) == 0);
        assert(utf8_offset(d, 0) == 0);
    }
}

/// A character's UTF-8 encoding is as long as its width.
proof fn lemma_scalar_width(c: char)
    ensures
        vstd::utf8::encode_scalar(c as u32).len() == utf8_width(c),
{
    let v = c as u32;
    assert(v <= 0x10FFFF && !(0xD800 <= v <= 0xDFFF));
}

/// The UTF-8 encoding of a text is as long as the widths of its characters together.
proof fn lemma_encoded_length(cs: Seq<char>)
    ensures
        vstd::utf8::encode_utf8(cs).len() == utf8_offset(cs, cs.len() as int),
    decreases cs.len(),
{
    if cs.len() > 0 {
        lemma_encoded_length(cs.drop_first());
        lemma_offset_from_second(cs, cs.len() as int);
        lemma_scalar_width(cs[0]);
        assert(vstd::utf8::encode_utf8(cs) == vstd::utf8::encode_scalar(cs[0] as u32) + vstd::utf8::encode_utf8(cs.drop_first()));
    }
}

/// Offsets grow along the text.
proof fn lemma_offset_grows(cs: Seq<char>, i: int, j: int)
    requires
        0 <= i <= j,
    ensures
        utf8_offset(cs, i) <= utf8_offset(cs, j),
    decreases j - i,
{
    if i < j {
        lemma_offset_grows(cs, i, j - 1);
    }
}

/// The byte offsets of the characters of `s` (the positions of `str::char_indices`), each the
/// UTF-8 length of the characters before it.
pub fn char_byte_offsets(s: &str) -> (r: Vec<usize>)
    ensures
        r@.len() == s@.len(),
        forall|i: int| 0 <= i < r@.len() ==> #[trigger] r@[i] as nat == utf8_offset(s@, i),
{
    let total = s.as_bytes().len();
    let cs = chars_of(s);
    proof {
        lemma_encoded_length(s@);
    }
    let mut offsets: Vec<usize> = Vec::new();
    let mut offset: usize = 0;
    for i in 0..cs.len()
        invariant
            cs@ == s@,
            total == utf8_offset(s@, s@.len() as int),
            offset == utf8_offset(s@, i as int),
            offsets@.len() == i,
            forall|j: int| 0 <= j < i ==> #[trigger] offsets@[j] as nat == utf8_offset(s@, j),
    {
        offsets.push(offset);
        proof {
            lemma_offset_grows(s@, i + 1, s@.len() as int);
        }
        offset = offset + utf8_width_of(cs[i]);
    }
    offsets
}

/// What Rust's `Debug` formatting writes for a string: the text quoted, with escapes.
pub uninterp spec fn debug_quoted_text(s: Seq<char>) -> Seq<char>;

/// `format!("{s:?}")`: the string quoted and escaped as Rust's `Debug` for `str` writes it.
#[verifier::external_body]
pub(crate) fn debug_quoted(s: &str) -> (r: String)
    ensures
        r@ == debug_quoted_text(s@),
{
    format!("{s:?}")
}

} // verus!
