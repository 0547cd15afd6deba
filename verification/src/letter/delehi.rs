//! Delehi (standard Unicode Mongolian) <-> ZVVNMOD.
use crate::code_mapper::{lookup, table_view, StaticMap};
use crate::letter::rule::{
    concat_and_202f, concat_connector, is_padded_nirugu, is_word_connector, padded_nirugu, WORD_CONNECTOR,
};
use crate::error::{ErrorView, MongolConvertError};
use crate::tables::from_delehi::{FROM_DELEHI, FROM_DELEHI_CHAGH, FROM_DELEHI_HUNDII, FROM_DELEHI_SAARMAG};
use crate::tables::to_delehi::TO_DELEHI;
use crate::text::{chars_of, extend_vec, str_eq};
use crate::unicode::{mgl, zvvnmod};
use crate::word::nature::Nature;
use crate::word::shape_word::{shape_frag_views, ShapeFragView, ShapeWord};
use vstd::prelude::*;

verus! {

broadcast use vstd::string::group_string_axioms;

/// The Delehi -> hub mapper for every nature.
pub open spec fn from_delehi_map() -> Seq<(Seq<char>, Seq<char>)> {
    table_view(FROM_DELEHI@)
}

/// The Delehi -> hub mapper for words of nature `n`.
pub open spec fn from_delehi_nature_map(n: Nature) -> Seq<(Seq<char>, Seq<char>)> {
    match n {
        Nature::Chagh => table_view(FROM_DELEHI_CHAGH@),
        Nature::Hundii => table_view(FROM_DELEHI_HUNDII@),
        Nature::Saarmag => table_view(FROM_DELEHI_SAARMAG@),
    }
}

/// The vowels a, e, i, o, u that make a following medial i a doubled hub i.
pub open spec fn delehi_double_i_vowel(c: char) -> bool {
    '\u{1820}' <= c && c <= '\u{1824}'
}

/// A lone medial i right after such a vowel is written as two hub i's.
pub open spec fn delehi_devsger_i(pre: Seq<char>, key: Seq<char>) -> Option<Seq<char>> {
    if key == "\u{1822}"@ && pre.len() > 0 && delehi_double_i_vowel(pre.last()) {
        Some("\u{e006}\u{e006}"@)
    } else {
        None
    }
}

/// The hub text for a Delehi locate key, after the letters `pre` of the same word, in a word of
/// nature `n`.
pub open spec fn delehi_from_mapped(pre: Seq<char>, key: Seq<char>, n: Nature) -> Option<Seq<char>> {
    if padded_nirugu(key) {
        Some("\u{180a}"@)
    } else if delehi_devsger_i(pre, key) is Some {
        delehi_devsger_i(pre, key)
    } else if lookup(from_delehi_map(), key) is Some {
        lookup(from_delehi_map(), key)
    } else {
        lookup(from_delehi_nature_map(n), key)
    }
}

/// Whether a Delehi locate key can be mapped at all.
pub open spec fn delehi_from_contains(key: Seq<char>) -> bool {
    lookup(from_delehi_map(), key) is Some || lookup(table_view(FROM_DELEHI_CHAGH@), key) is Some
}

/// The letters, selectors, vowel separator and nirugu that make up a Delehi word.
pub open spec fn delehi_word_char(c: char) -> bool {
    mgl::normal_letter(c) || mgl::free_variation_selector(c) || c == mgl::VOWEL_SEPARATOR || c == mgl::NIRUGU
}

/// The rule reading Delehi text.
pub struct DelehiFrom;

impl DelehiFrom {
    /// The hub text for a locate key, after the letters `pre` of the same word.
    pub fn get_mapper_code(&self, pre: &Vec<char>, key: &str, nature: Nature) -> (r: Option<&'static str>)
        ensures
            r matches Some(v) ==> delehi_from_mapped(pre@, key@, nature) == Some(v@),
            r is None <==> delehi_from_mapped(pre@, key@, nature) is None,
    {
        if is_padded_nirugu(key) {
            return Some("\u{180a}");
        }
        if let Some(r) = resolve_devsger_i(pre, key) {
            return Some(r);
        }
        if let Some(r) = StaticMap::new(&FROM_DELEHI).get(key) {
            return Some(r);
        }
        match nature {
            Nature::Chagh => StaticMap::new(&FROM_DELEHI_CHAGH).get(key),
            Nature::Hundii => StaticMap::new(&FROM_DELEHI_HUNDII).get(key),
            Nature::Saarmag => StaticMap::new(&FROM_DELEHI_SAARMAG).get(key),
        }
    }

    /// Whether the key is mapped by the common or the masculine mapper.
    pub fn contains(&self, key: &str) -> (r: bool)
        ensures
            r == delehi_from_contains(key@),
    {
        StaticMap::new(&FROM_DELEHI).contains_key(key) || StaticMap::new(&FROM_DELEHI_CHAGH).contains_key(key)
    }

    /// The nature of a letter.
    pub fn get_code_nature(&self, c: char) -> (r: Nature)
        ensures
            r == mgl::code_nature(c),
    {
        mgl::get_code_nature(c)
    }

    /// Word characters and the word connector take part in translation.
    pub fn is_translate_code_point(&self, c: char) -> (r: bool)
        ensures
            r == (delehi_word_char(c) || c == WORD_CONNECTOR),
    {
        mgl::is_normal_letter(c) || mgl::is_free_variation_selector(c) || mgl::is_vowel_separator(c)
            || is_word_connector(c) || mgl::other_mongolian_code(c)
    }

    /// The characters that make up a word.
    pub fn is_word_code_point(&self, c: char) -> (r: bool)
        ensures
            r == delehi_word_char(c),
    {
        mgl::is_normal_letter(c) || mgl::is_free_variation_selector(c) || mgl::is_vowel_separator(c)
            || mgl::other_mongolian_code(c)
    }
}

/// A medial i after a, e, i, o or u is two hub i's.
pub fn resolve_devsger_i(pre: &Vec<char>, key: &str) -> (r: Option<&'static str>)
    ensures
        r matches Some(v) ==> delehi_devsger_i(pre@, key@) == Some(v@),
        r is None <==> delehi_devsger_i(pre@, key@) is None,
{
    if !str_eq(key, "\u{1822}") || pre.len() == 0 {
        return None;
    }
    let c = pre[pre.len() - 1];
    if '\u{1820}' <= c && c <= '\u{1824}' {
        Some("\u{e006}\u{e006}")
    } else {
        None
    }
}

/// The hub -> Delehi mapper.
pub open spec fn to_delehi_map() -> Seq<(Seq<char>, Seq<char>)> {
    table_view(TO_DELEHI@)
}

/// The Delehi text `s` of a word followed by the text for one more hub key: the final `E00C` is
/// `n` after a vowel and `a` otherwise; every other key goes through the mapper, its leading
/// connector replacing a boundary at the end of `s`.
pub open spec fn delehi_step(s: Seq<char>, key: Seq<char>) -> Option<Seq<char>> {
    if key == "\u{e00c}"@ {
        Some(s.push(if s.len() > 0 && mgl::traditional_ehshig(s.last()) { '\u{1828}' } else { '\u{1820}' }))
    } else {
        match lookup(to_delehi_map(), key) {
            Some(m) => Some(concat_connector(s, m)),
            None => None,
        }
    }
}

/// The Delehi text of a word's fragments from index `i` on, after the text `s`.
pub open spec fn delehi_word_from(f: Seq<ShapeFragView>, i: int, s: Seq<char>) -> Result<Seq<char>, ErrorView>
    decreases f.len() - i,
{
    if i < 0 || i >= f.len() {
        Ok(s)
    } else {
        match delehi_step(s, f[i].content) {
            Some(t) => delehi_word_from(f, i + 1, t),
            None => Err(ErrorView::NotFoundInMapper(f[i].content)),
        }
    }
}

/// The Delehi text of a word.
pub open spec fn delehi_word(f: Seq<ShapeFragView>) -> Result<Seq<char>, ErrorView> {
    delehi_word_from(f, 0, Seq::empty())
}

/// The rule writing Delehi text.
pub struct DelehiTo;

impl DelehiTo {
    /// Writes the Delehi text of `word` after `builder`; its leading connector replaces a
    /// boundary at the end of `builder`.
    pub fn get_mapper_code(&self, builder: &mut Vec<char>, word: &ShapeWord) -> (r: Result<(), MongolConvertError>)
        ensures
            match delehi_word(shape_frag_views(word.fragments@)) {
                Ok(s) => r is Ok && final(builder)@ == concat_connector(old(builder)@, s),
                Err(e) => r matches Err(x) && x@ == e && final(builder)@ == old(builder)@,
            },
    {
        let ghost f = shape_frag_views(word.fragments@);
        let mut s: Vec<char> = Vec::new();
        for idx in 0..word.fragments.len()
            invariant
                f == shape_frag_views(word.fragments@),
                delehi_word(f) == delehi_word_from(f, idx as int, s@),
        {
            let fragment = &word.fragments[idx];
            assert(f[idx as int] == fragment@);
            let key = fragment.get_key();
            match get_delehi(&s, key.as_str()) {
                Some(v) => s = v,
                None => return Err(MongolConvertError::NotFoundInMapper(key)),
            }
        }
        let merged = concat_and_202f(builder, &s);
        *builder = merged;
        Ok(())
    }

    /// Whether the hub key has a Delehi spelling.
    pub fn contains(&self, key: &str) -> (r: bool)
        ensures
            r == (lookup(to_delehi_map(), key@) is Some),
    {
        StaticMap::new(&TO_DELEHI).contains_key(key)
    }

    /// Hub glyph codes take part in translation.
    pub fn is_translate_code_point(&self, c: char) -> (r: bool)
        ensures
            r == zvvnmod::zvvnmod_code(c),
    {
        zvvnmod::is_zvvnmod_code(c)
    }
}

/// The word text `pre` followed by the Delehi text of one hub key.
pub fn get_delehi(pre: &Vec<char>, key: &str) -> (r: Option<Vec<char>>)
    ensures
        r matches Some(v) ==> delehi_step(pre@, key@) == Some(v@),
        r is None <==> delehi_step(pre@, key@) is None,
{
    if str_eq(key, "\u{e00c}") {
        let tail = if pre.len() > 0 && mgl::is_traditional_ehshig(pre[pre.len() - 1]) {
            '\u{1828}'
        } else {
            '\u{1820}'
        };
        let mut out: Vec<char> = Vec::new();
        extend_vec(&mut out, pre);
        out.push(tail);
        return Some(out);
    }
    match StaticMap::new(&TO_DELEHI).get(key) {
        Some(mapped) => {
            let m = chars_of(mapped);
            Some(concat_and_202f(pre, &m))
        },
        None => None,
    }
}

} // verus!
