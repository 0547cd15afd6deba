//! String predicates used by the translators.
use crate::text::chars_of;
use vstd::prelude::*;

verus! {

broadcast use vstd::string::group_string_axioms;

/// Every character of `s` is at most U+0020 (so the empty text is blank).
pub open spec fn blank(s: Seq<char>) -> bool {
    forall|i: int| 0 <= i < s.len() ==> (#[trigger] s[i]) as u32 <= 0x20
}

/// Blank: empty, or every character is at most U+0020. NBSP (U+00A0) is not blank.
pub fn is_blank(s: &str) -> (r: bool)
    ensures
        r == blank(s@),
{
    let cs = chars_of(s);
    is_blank_chars(&cs)
}

/// [`is_blank`] over a character vector.
pub fn is_blank_chars(cs: &Vec<char>) -> (r: bool)
    ensures
        r == blank(cs@),
{
    for i in 0..cs.len()
        invariant
            forall|j: int| 0 <= j < i ==> (#[trigger] cs@[j]) as u32 <= 0x20,
    {
        if cs[i] as u32 > 0x20 {
            return false;
        }
    }
    true
}

/// Length zero.
pub fn is_empty(s: &str) -> (r: bool)
    ensures
        r == (s@.len() == 0),
{
    s.is_empty()
}

/// The last character of `s` is `c`; false when `s` is blank.
pub fn end_of_char(s: &str, c: char) -> (r: bool)
    ensures
        r == (!blank(s@) && s@.len() > 0 && s@.last() == c),
{
    if is_blank(s) {
        return false;
    }
    let cs = chars_of(s);
    cs.len() > 0 && cs[cs.len() - 1] == c
}

/// `s1` is a suffix of `s0`; false when either is blank.
pub fn end_of_str(s0: &str, s1: &str) -> (r: bool)
    ensures
        r == (!blank(s0@) && !blank(s1@) && s1@.len() <= s0@.len() && s0@.subrange(
            s0@.len() - s1@.len(),
            s0@.len() as int,
        ) == s1@),
{
    if is_blank(s0) || is_blank(s1) {
        return false;
    }
    let a = chars_of(s0);
    let b = chars_of(s1);
    if b.len() > a.len() {
        return false;
    }
    let off = a.len() - b.len();
    for i in 0..b.len()
        invariant
            off == a.len() - b.len(),
            a@ == s0@,
            b@ == s1@,
            forall|j: int| 0 <= j < i ==> a@[off + j] == b@[j],
    {
        if a[off + i] != b[i] {
            assert(a@.subrange(off as int, a@.len() as int)[i as int] != b@[i as int]);
            return false;
        }
    }
    assert(a@.subrange(off as int, a@.len() as int) =~= b@);
    true
}

} // verus!
