//! The letter rules: Delehi and MenkLetter, each direction, and what they share.
use crate::error::{ErrorView, MongolConvertError};
use crate::letter::delehi::{delehi_from_contains, delehi_from_mapped, delehi_word, delehi_word_char, to_delehi_map, DelehiFrom, DelehiTo};
use crate::letter::menk::{menk_from_contains, menk_from_mapped, menk_to_contains, menk_word, MenkLetterFrom, MenkLetterTo};
use crate::code_mapper::lookup;
use crate::unicode::{mgl, zvvnmod};
use crate::unicode::mgl::NIRUGU;
use crate::word::nature::Nature;
use crate::word::shape_word::{shape_frag_views, ShapeFragView, ShapeWord};
use vstd::prelude::*;

verus! {

/// The narrow no-break space U+202F: the boundary before a detached suffix.
pub const WORD_CONNECTOR: char = '\u{202F}';

/// The narrow no-break space, which joins a detached suffix to its word.
pub fn is_word_connector(c: char) -> (r: bool)
    ensures
        r == (c == WORD_CONNECTOR),
{
    c == WORD_CONNECTOR
}

/// Whether `s` ends with a word boundary: an ordinary space or the word connector.
pub open spec fn boundary_end(s: Seq<char>) -> bool {
    s.len() > 0 && (s.last() == ' ' || s.last() == WORD_CONNECTOR)
}

/// Whether `s` ends with an ordinary space or the word connector.
pub fn ends_with_boundary(s: &Vec<char>) -> (r: bool)
    ensures
        r == boundary_end(s@),
{
    s.len() > 0 && (s[s.len() - 1] == ' ' || s[s.len() - 1] == WORD_CONNECTOR)
}

/// Whether `s` starts with the word connector.
pub open spec fn connector_start(s: Seq<char>) -> bool {
    s.len() > 0 && s[0] == WORD_CONNECTOR
}

/// `s0 + s1`, except that a leading connector in `s1` replaces a boundary at the end of `s0`.
pub open spec fn concat_connector(s0: Seq<char>, s1: Seq<char>) -> Seq<char> {
    if connector_start(s1) && boundary_end(s0) {
        s0.drop_last() + s1
    } else {
        s0 + s1
    }
}

/// `s0 + s1`, except that a leading connector in `s1` replaces a boundary at the end of `s0`.
pub fn concat_and_202f(s0: &Vec<char>, s1: &Vec<char>) -> (r: Vec<char>)
    ensures
        r@ == concat_connector(s0@, s1@),
{
    let mut out: Vec<char> = Vec::new();
    let keep = if s1.len() > 0 && s1[0] == WORD_CONNECTOR && ends_with_boundary(s0) {
        s0.len() - 1
    } else {
        s0.len()
    };
    for i in 0..keep
        invariant
            keep <= s0.len(),
            out@ == s0@.take(i as int),
    {
        out.push(s0[i]);
        assert(s0@.take(i + 1) == s0@.take(i as int).push(s0@[i as int]));
    }
    crate::text::extend_vec(&mut out, s1);
    assert(s0@.take(s0.len() - 1) =~= s0@.drop_last());
    assert(s0@.take(s0.len() as int) =~= s0@);
    out
}

/// A rule reading a letter encoding into the hub.
#[derive(Copy, Clone, PartialEq, Eq, Debug, Structural)]
pub enum LetterFromRule {
    Delehi,
    MenkLetter,
}

/// A rule writing the hub as a letter encoding.
#[derive(Copy, Clone, PartialEq, Eq, Debug, Structural)]
pub enum LetterToRule {
    Delehi,
    MenkLetter,
}

/// Whether `c` belongs to a word of the rule's encoding.
pub open spec fn from_word_char(rule: LetterFromRule, c: char) -> bool {
    match rule {
        LetterFromRule::Delehi => delehi_word_char(c),
        LetterFromRule::MenkLetter => delehi_word_char(c),
    }
}

/// Whether `c` takes part in the rule's translation: the word characters and the connector.
pub open spec fn from_translates(rule: LetterFromRule, c: char) -> bool {
    from_word_char(rule, c) || c == WORD_CONNECTOR
}

/// Whether the rule maps a locate key.
pub open spec fn from_contains(rule: LetterFromRule, key: Seq<char>) -> bool {
    match rule {
        LetterFromRule::Delehi => delehi_from_contains(key),
        LetterFromRule::MenkLetter => menk_from_contains(key),
    }
}

/// The hub text for a locate key between the letters `pre` and the next fragment `suf` of a word
/// of nature `n`.
pub open spec fn from_mapped(rule: LetterFromRule, pre: Seq<char>, suf: Seq<char>, key: Seq<char>, n: Nature) -> Option<Seq<char>> {
    match rule {
        LetterFromRule::Delehi => delehi_from_mapped(pre, key, n),
        LetterFromRule::MenkLetter => menk_from_mapped(pre, suf, key, n),
    }
}

/// Whether the writing rule maps a hub key.
pub open spec fn to_contains(rule: LetterToRule, key: Seq<char>) -> bool {
    match rule {
        LetterToRule::Delehi => lookup(to_delehi_map(), key) is Some,
        LetterToRule::MenkLetter => menk_to_contains(key),
    }
}

/// The text the writing rule gives a word of nature `n`.
pub open spec fn to_word(rule: LetterToRule, f: Seq<ShapeFragView>, n: Nature) -> Result<Seq<char>, ErrorView> {
    match rule {
        LetterToRule::Delehi => delehi_word(f),
        LetterToRule::MenkLetter => menk_word(f, n),
    }
}

impl LetterFromRule {
    /// The hub text for a locate key, between the letters `pre` before it and `suf` of the next
    /// fragment, in a word of nature `nature`.
    pub fn get_mapper_code(&self, pre: &Vec<char>, suf: &[char], key: &str, nature: Nature) -> (r: Option<&'static str>)
        ensures
            r matches Some(v) ==> from_mapped(*self, pre@, suf@, key@, nature) == Some(v@),
            r is None <==> from_mapped(*self, pre@, suf@, key@, nature) is None,
    {
        match self {
            LetterFromRule::Delehi => DelehiFrom.get_mapper_code(pre, key, nature),
            LetterFromRule::MenkLetter => MenkLetterFrom.get_mapper_code(pre, suf, key, nature),
        }
    }

    /// Whether the rule maps a locate key.
    pub fn contains(&self, key: &str) -> (r: bool)
        ensures
            r == from_contains(*self, key@),
    {
        match self {
            LetterFromRule::Delehi => DelehiFrom.contains(key),
            LetterFromRule::MenkLetter => MenkLetterFrom.contains(key),
        }
    }

    /// The nature of a letter.
    pub fn get_code_nature(&self, c: char) -> (r: Nature)
        ensures
            r == mgl::code_nature(c),
    {
        match self {
            LetterFromRule::Delehi => DelehiFrom.get_code_nature(c),
            LetterFromRule::MenkLetter => MenkLetterFrom.get_code_nature(c),
        }
    }

    /// Whether `c` takes part in translation.
    pub fn is_translate_code_point(&self, c: char) -> (r: bool)
        ensures
            r == from_translates(*self, c),
    {
        match self {
            LetterFromRule::Delehi => DelehiFrom.is_translate_code_point(c),
            LetterFromRule::MenkLetter => MenkLetterFrom.is_translate_code_point(c),
        }
    }

    /// Whether `c` belongs to a word.
    pub fn is_word_code_point(&self, c: char) -> (r: bool)
        ensures
            r == from_word_char(*self, c),
    {
        match self {
            LetterFromRule::Delehi => DelehiFrom.is_word_code_point(c),
            LetterFromRule::MenkLetter => MenkLetterFrom.is_word_code_point(c),
        }
    }
}

impl LetterToRule {
    /// Writes the text of `word` after `builder`.
    pub fn get_mapper_code(&self, builder: &mut Vec<char>, word: &ShapeWord) -> (r: Result<(), MongolConvertError>)
        ensures
            match to_word(*self, shape_frag_views(word.fragments@), word.nature) {
                Ok(s) => r is Ok && final(builder)@ == concat_connector(old(builder)@, s),
                Err(e) => r matches Err(x) && x@ == e && final(builder)@ == old(builder)@,
            },
    {
        match self {
            LetterToRule::Delehi => DelehiTo.get_mapper_code(builder, word),
            LetterToRule::MenkLetter => MenkLetterTo.get_mapper_code(builder, word),
        }
    }

    /// Whether the rule maps a hub key.
    pub fn contains(&self, key: &str) -> (r: bool)
        ensures
            r == to_contains(*self, key@),
    {
        match self {
            LetterToRule::Delehi => DelehiTo.contains(key),
            LetterToRule::MenkLetter => MenkLetterTo.contains(key),
        }
    }

    /// Hub glyph codes take part in translation.
    pub fn is_translate_code_point(&self, c: char) -> (r: bool)
        ensures
            r == zvvnmod::zvvnmod_code(c),
    {
        match self {
            LetterToRule::Delehi => DelehiTo.is_translate_code_point(c),
            LetterToRule::MenkLetter => MenkLetterTo.is_translate_code_point(c),
        }
    }
}

/// A key that is the nirugu with nothing but spaces around it.
pub open spec fn padded_nirugu(k: Seq<char>) -> bool {
    exists|p: int|
        0 <= p < k.len() && k[p] == NIRUGU && forall|j: int| 0 <= j < k.len() && j != p ==> #[trigger] k[j] == ' '
}

/// Whether `key` with its spaces trimmed at both ends is the nirugu.
pub fn is_padded_nirugu(key: &str) -> (r: bool)
    ensures
        r == padded_nirugu(key@),
{
    let cs = crate::text::chars_of(key);
    let mut found: Option<usize> = None;
    for i in 0..cs.len()
        invariant
            cs@ == key@,
            match found {
                None => forall|j: int| 0 <= j < i ==> #[trigger] cs@[j] == ' ',
                Some(p) => p < i && cs@[p as int] == NIRUGU && forall|j: int|
                    0 <= j < i && j != p ==> #[trigger] cs@[j] == ' ',
            },
    {
        if cs[i] != ' ' {
            if cs[i] != NIRUGU {
                proof {
                    if padded_nirugu(key@) {
                        let p = choose|p: int|
                            0 <= p < key@.len() && key@[p] == NIRUGU && forall|j: int|
                                0 <= j < key@.len() && j != p ==> #[trigger] key@[j] == ' ';
                        assert(key@[i as int] != ' ');
                        assert(false);
                    }
                }
                return false;
            }
            if let Some(p) = found {
                proof {
                    if padded_nirugu(key@) {
                        let q = choose|q: int|
                            0 <= q < key@.len() && key@[q] == NIRUGU && forall|j: int|
                                0 <= j < key@.len() && j != q ==> #[trigger] key@[j] == ' ';
                        if q == p {
                            assert(key@[i as int] == ' ');
                        } else {
                            assert(key@[p as int] == ' ');
                        }
                        assert(false);
                    }
                }
                return false;
            }
            found = Some(i);
        }
    }
    match found {
        Some(p) => {
            assert(padded_nirugu(key@)) by {
                assert(0 <= p < key@.len() && key@[p as int] == NIRUGU);
            }
            true
        },
        None => {
            proof {
                if padded_nirugu(key@) {
                    let q = choose|q: int|
                        0 <= q < key@.len() && key@[q] == NIRUGU && forall|j: int|
                            0 <= j < key@.len() && j != q ==> #[trigger] key@[j] == ' ';
                    assert(key@[q] == ' ');
                }
            }
            false
        },
    }
}

} // verus!
