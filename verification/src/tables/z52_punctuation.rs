//! Strict Z52 punctuation encoding.
//!
//! Z52 fonts and input methods overload `U+184F..=U+1863` with punctuation glyphs even though
//! those code points are Todo/Sibe letters in Unicode. Apply this table only at an explicit Z52
//! target boundary; never reinterpret these code points in ordinary Unicode text.
use crate::code_mapper::{char_lookup, char_table_view};
use crate::text::chars_of;
use vstd::prelude::*;

verus! {

/// Standard semantic punctuation to strict Z52 font code positions, sorted by input code point.
pub const UNICODE_TO_Z52_PUNCTUATION: [(char, &'static str); 21] = [
    ('!', "\u{1852}"),
    ('(', "\u{1855}"),
    (')', "\u{1856}"),
    (',', "\u{185f}"),
    ('-', "\u{1862}"),
    (';', "\u{1854}"),
    ('?', "\u{1853}"),
    ('|', "\u{1863}"),
    ('\u{00b7}', "\u{184f}"),
    ('\u{00d7}', "\u{1860}"),
    ('\u{203b}', "\u{1861}"),
    ('\u{2048}', "\u{1850}"),
    ('\u{2049}', "\u{1851}"),
    ('\u{3008}', "\u{1857}"),
    ('\u{3009}', "\u{1858}"),
    ('\u{300a}', "\u{185b}"),
    ('\u{300b}', "\u{185c}"),
    ('\u{300e}', "\u{185d}"),
    ('\u{300f}', "\u{185e}"),
    ('\u{3014}', "\u{1859}"),
    ('\u{3015}', "\u{185a}"),
];

/// The Z52 code position of a punctuation mark, if it has one.
pub open spec fn z52_punctuation_of(c: char) -> Option<Seq<char>> {
    char_lookup(char_table_view(UNICODE_TO_Z52_PUNCTUATION@), c)
}

/// The strict Z52 spelling of a one-character key; longer or empty keys have none.
pub open spec fn z52_punctuation_for_key(key: Seq<char>) -> Option<Seq<char>> {
    if key.len() == 1 {
        z52_punctuation_of(key[0])
    } else {
        None
    }
}

/// Whether `c` is a mark with a strict Z52 code position.
pub fn contains(c: char) -> (r: bool)
    ensures
        r == (z52_punctuation_of(c) is Some),
{
    crate::code_mapper::char_table_get(UNICODE_TO_Z52_PUNCTUATION.as_slice(), c).is_some()
}

/// The strict Z52 spelling of `key` when it is a single mark with one.
pub fn get(key: &str) -> (r: Option<&'static str>)
    ensures
        r matches Some(v) ==> z52_punctuation_for_key(key@) == Some(v@),
        r is None <==> z52_punctuation_for_key(key@) is None,
{
    let cs = chars_of(key);
    if cs.len() != 1 {
        return None;
    }
    crate::code_mapper::char_table_get(UNICODE_TO_Z52_PUNCTUATION.as_slice(), cs[0])
}

} // verus!
