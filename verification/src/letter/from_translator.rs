//! Letter encoding -> ZVVNMOD.
//!
//! The same greedy longest-match segmenter as the shape translator, over letter fragments: a
//! word character grows the fragment while the rule maps it, and on a miss the longest mapped
//! fragment is committed and the character read again. The word connector is no word character
//! but joins the fragment that follows it. Each committed fragment keeps the nature of its
//! letters; a neutral fragment takes the word's nature when the word is translated.
use crate::error::{text_result, ErrorView, MongolConvertError};
use crate::letter::rule::{from_contains, from_mapped, from_translates, from_word_char, LetterFromRule, WORD_CONNECTOR};
use crate::shape::translator::{next_char, without_last, SENTINEL};
use crate::strings::{blank, is_blank};
use crate::text::{chars_of, extend_chars, str_contains_char, string_of};
use crate::unicode::mgl;
use crate::word::char_type::CharType;
use crate::word::letter_word::{latched, letter_frag_views, trimmed, LetterFragView, LetterWord, LetterWordFragment};
use crate::word::nature::Nature;
use crate::word::shape_word::padded_key;
use vstd::prelude::*;

verus! {

broadcast use vstd::string::group_string_axioms;

/// The context a neighbouring character gives a fragment.
pub open spec fn letter_char_type(rule: LetterFromRule, c: char) -> CharType {
    if from_word_char(rule, c) {
        CharType::Mongolian
    } else {
        CharType::Other
    }
}

/// A fresh, neutral fragment with the given head.
pub open spec fn fresh_letter_frag(head: Option<CharType>) -> LetterFragView {
    LetterFragView { head, tail: None, content: Seq::empty(), nature: Nature::Saarmag }
}

/// The locate key of a fragment.
pub open spec fn frag_key(f: LetterFragView) -> Seq<char> {
    padded_key(f.head, f.tail, f.content)
}

/// What a mapped text writes for a key: a key holding the connector has the leading space of its
/// text written as the connector.
pub open spec fn pushed_text(key: Seq<char>, mapped: Seq<char>) -> Seq<char> {
    if key.contains(WORD_CONNECTOR) && mapped.len() > 0 && mapped[0] == ' ' {
        seq![WORD_CONNECTOR] + mapped.skip(1)
    } else {
        mapped
    }
}

/// `out` followed by the hub text of the word's fragments from index `i` on, each mapped after
/// the letters `pre` of the fragments before it and before the letters of the next one; a
/// neutral fragment takes the word's nature `wn`.
pub open spec fn letter_word_from(rule: LetterFromRule, f: Seq<LetterFragView>, wn: Nature, i: int, pre: Seq<char>, out: Seq<char>) -> Result<Seq<char>, ErrorView>
    decreases f.len() - i,
{
    if i < 0 || i >= f.len() {
        Ok(out)
    } else {
        let n = if f[i].nature == Nature::Saarmag { wn } else { f[i].nature };
        let suf = if i + 1 < f.len() { f[i + 1].content } else { Seq::empty() };
        let key = frag_key(f[i]);
        match from_mapped(rule, pre, suf, key, n) {
            Some(m) => letter_word_from(rule, f, wn, i + 1, pre + f[i].content, out + pushed_text(key, m)),
            None => Err(ErrorView::NotFoundInMapper(key)),
        }
    }
}

/// `out` followed by the hub text of a word, once the selectors that repeat a letter at its end
/// are dropped.
pub open spec fn letter_word_text(rule: LetterFromRule, f: Seq<LetterFragView>, wn: Nature, out: Seq<char>) -> Result<Seq<char>, ErrorView> {
    letter_word_from(rule, trimmed(f), wn, 0, Seq::empty(), out)
}

/// The segmenter's state: the committed fragments of the current word and the word's nature, the
/// growing fragment, and the output so far.
pub struct LetterState {
    pub word: Seq<LetterFragView>,
    pub nature: Nature,
    pub frag: LetterFragView,
    pub out: Seq<char>,
}

/// The segmenter run over `cs` from position `i` in state `st`.
pub open spec fn letter_run(rule: LetterFromRule, cs: Seq<char>, i: int, st: LetterState) -> Result<Seq<char>, ErrorView>
    decreases cs.len() - i, st.frag.content.len(),
{
    if i < 0 || i >= cs.len() {
        Ok(st.out)
    } else {
        let c = cs[i];
        if from_word_char(rule, c) {
            let grown = LetterFragView {
                tail: Some(letter_char_type(rule, next_char(cs, i))),
                content: st.frag.content.push(c),
                ..st.frag
            };
            if from_contains(rule, frag_key(grown)) {
                letter_run(
                    rule,
                    cs,
                    i + 1,
                    LetterState { frag: LetterFragView { nature: latched(grown.nature, mgl::code_nature(c)), ..grown }, ..st },
                )
            } else if st.frag.content.len() == 0 {
                if st.word.len() > 0 {
                    match letter_word_text(rule, st.word, st.nature, st.out) {
                        Ok(o) => letter_run(
                            rule,
                            cs,
                            i + 1,
                            LetterState {
                                word: Seq::empty(),
                                nature: Nature::Saarmag,
                                frag: fresh_letter_frag(Some(CharType::Other)),
                                out: o.push(c),
                            },
                        ),
                        Err(e) => Err(e),
                    }
                } else {
                    letter_run(
                        rule,
                        cs,
                        i + 1,
                        LetterState { frag: fresh_letter_frag(Some(CharType::Other)), out: st.out.push(c), ..st },
                    )
                }
            } else {
                let kept = LetterFragView { tail: Some(letter_char_type(rule, c)), ..st.frag };
                letter_run(
                    rule,
                    cs,
                    i,
                    LetterState {
                        word: st.word.push(kept),
                        nature: latched(st.nature, kept.nature),
                        frag: fresh_letter_frag(Some(letter_char_type(rule, cs[i - 1]))),
                        out: st.out,
                    },
                )
            }
        } else {
            let nonblank = st.frag.content.len() > 0;
            let word1 = if nonblank {
                st.word.push(LetterFragView { tail: Some(CharType::Other), ..st.frag })
            } else {
                st.word
            };
            let nature1 = if nonblank { latched(st.nature, st.frag.nature) } else { st.nature };
            let frag1 = if nonblank { fresh_letter_frag(Some(CharType::Other)) } else { st.frag };
            let frag2 = if from_translates(rule, c) {
                LetterFragView { content: frag1.content.push(c), ..frag1 }
            } else {
                frag1
            };
            if word1.len() > 0 {
                match letter_word_text(rule, word1, nature1, st.out) {
                    Ok(o) => letter_run(
                        rule,
                        cs,
                        i + 1,
                        LetterState {
                            word: Seq::empty(),
                            nature: Nature::Saarmag,
                            frag: frag2,
                            out: if from_translates(rule, c) { o } else { o.push(c) },
                        },
                    ),
                    Err(e) => Err(e),
                }
            } else {
                letter_run(
                    rule,
                    cs,
                    i + 1,
                    LetterState {
                        word: word1,
                        nature: nature1,
                        frag: frag2,
                        out: if from_translates(rule, c) { st.out } else { st.out.push(c) },
                    },
                )
            }
        }
    }
}

/// What a letter rule makes of a text: nothing for blank text, else the segmenter's output over
/// the text and the sentinel, with the sentinel removed.
pub open spec fn letter_translation(rule: LetterFromRule, s: Seq<char>) -> Result<Seq<char>, ErrorView> {
    if blank(s) {
        Ok(Seq::empty())
    } else {
        match letter_run(
            rule,
            s.push(SENTINEL),
            0,
            LetterState {
                word: Seq::empty(),
                nature: Nature::Saarmag,
                frag: fresh_letter_frag(Some(CharType::Other)),
                out: Seq::empty(),
            },
        ) {
            Ok(o) => Ok(without_last(o)),
            Err(e) => Err(e),
        }
    }
}

/// Reads text of a letter encoding into the hub.
pub struct LetterFromTranslator {
    pub rule: LetterFromRule,
}

impl LetterFromTranslator {
    /// The translator for `rule`.
    pub fn new(rule: LetterFromRule) -> (r: Self)
        ensures
            r.rule == rule,
    {
        LetterFromTranslator { rule }
    }

    /// Whether `c` belongs to a word.
    pub fn unicode_type(&self, c: char) -> (r: CharType)
        ensures
            r == letter_char_type(self.rule, c),
    {
        if self.rule.is_word_code_point(c) {
            CharType::Mongolian
        } else {
            CharType::Other
        }
    }

    /// Translates `s0` into the hub.
    #[verifier::rlimit(60)]
    pub fn translate(&self, s0: &str) -> (r: Result<String, MongolConvertError>)
        ensures
            text_result(r) == letter_translation(self.rule, s0@),
    {
        if is_blank(s0) {
            return Ok(String::new());
        }
        let mut chars = chars_of(s0);
        chars.push(SENTINEL);
        let ghost cs = chars@;
        let mut builder: Vec<char> = Vec::new();
        let mut fragment = LetterWordFragment::new();
        let mut word = LetterWord::new();
        fragment.set_head(Some(CharType::Other));
        let ghost init = LetterState {
            word: Seq::empty(),
            nature: Nature::Saarmag,
            frag: fresh_letter_frag(Some(CharType::Other)),
            out: Seq::empty(),
        };
        assert(letter_frag_views(word.fragments@) =~= Seq::<LetterFragView>::empty());
        let mut i: usize = 0;
        while i < chars.len()
            invariant
                chars@ == cs,
                init == (LetterState {
                    word: Seq::empty(),
                    nature: Nature::Saarmag,
                    frag: fresh_letter_frag(Some(CharType::Other)),
                    out: Seq::empty(),
                }),
                cs == s0@.push(SENTINEL),
                !blank(s0@),
                i <= cs.len(),
                fragment@.content.len() <= i,
                letter_run(self.rule, cs, 0, init) == letter_run(
                    self.rule,
                    cs,
                    i as int,
                    LetterState {
                        word: letter_frag_views(word.fragments@),
                        nature: word.nature,
                        frag: fragment@,
                        out: builder@,
                    },
                ),
            decreases cs.len() - i, fragment@.content.len(),
        {
            let ghost st = LetterState {
                word: letter_frag_views(word.fragments@),
                nature: word.nature,
                frag: fragment@,
                out: builder@,
            };
            let c = chars[i];
            if self.rule.is_word_code_point(c) {
                fragment.push(c);
                let next = if i + 1 < chars.len() {
                    chars[i + 1]
                } else {
                    SENTINEL
                };
                fragment.set_tail(Some(self.unicode_type(next)));
                if self.rule.contains(fragment.get_key().as_str()) {
                    fragment.set_nature(self.rule.get_code_nature(c));
                    i += 1;
                    continue;
                }
                fragment.pop()?;
                fragment.set_tail(Some(self.unicode_type(c)));
                if fragment.is_blank() {
                    if word.is_not_blank() {
                        if let Err(e) = self.translate_word(&mut builder, &mut word) {
                            assert(letter_run(self.rule, cs, i as int, st) == Err::<Seq<char>, ErrorView>(e@));
                            return Err(e);
                        }
                        word = LetterWord::new();
                        assert(letter_frag_views(word.fragments@) =~= Seq::<LetterFragView>::empty());
                    }
                    builder.push(c);
                    fragment = LetterWordFragment::new();
                    fragment.set_head(Some(CharType::Other));
                    i += 1;
                    continue;
                }
                assert(fragment@.content =~= st.frag.content);
                word.add(fragment);
                assert(letter_frag_views(word.fragments@) =~= st.word.push(
                    LetterFragView { tail: Some(letter_char_type(self.rule, c)), ..st.frag },
                ));
                fragment = LetterWordFragment::new();
                fragment.set_head(Some(self.unicode_type(chars[i - 1])));
                continue;
            } else {
                if fragment.is_not_blank() {
                    fragment.set_tail(Some(CharType::Other));
                    word.add(fragment);
                    assert(letter_frag_views(word.fragments@) =~= st.word.push(
                        LetterFragView { tail: Some(CharType::Other), ..st.frag },
                    ));
                    fragment = LetterWordFragment::new();
                    fragment.set_head(Some(CharType::Other));
                }
                if word.is_not_blank() {
                    if let Err(e) = self.translate_word(&mut builder, &mut word) {
                        assert(letter_run(self.rule, cs, i as int, st) == Err::<Seq<char>, ErrorView>(e@));
                        return Err(e);
                    }
                    word = LetterWord::new();
                    assert(letter_frag_views(word.fragments@) =~= Seq::<LetterFragView>::empty());
                }
                if self.rule.is_translate_code_point(c) {
                    fragment.push(c);
                } else {
                    builder.push(c);
                }
            }
            i += 1;
        }
        builder.pop();
        Ok(string_of(&builder))
    }

    /// Writes the hub text of `word` after `builder`, once the selectors that repeat a letter at
    /// its end are dropped.
    pub fn translate_word(&self, builder: &mut Vec<char>, word: &mut LetterWord) -> (r: Result<(), MongolConvertError>)
        ensures
            match letter_word_text(self.rule, letter_frag_views(old(word).fragments@), old(word).nature, old(builder)@) {
                Ok(o) => r is Ok && final(builder)@ == o,
                Err(e) => r matches Err(x) && x@ == e,
            },
    {
        word.remove_invalid_code_point_from_end();
        let word_nature = word.nature;
        let ghost f = letter_frag_views(word.fragments@);
        let n = word.fragments.len();
        let mut pre: Vec<char> = Vec::new();
        for idx in 0..n
            invariant
                n == word.fragments@.len(),
                f == letter_frag_views(word.fragments@),
                f == trimmed(letter_frag_views(old(word).fragments@)),
                word_nature == old(word).nature,
                letter_word_text(self.rule, letter_frag_views(old(word).fragments@), old(word).nature, old(builder)@)
                    == letter_word_from(self.rule, f, word_nature, idx as int, pre@, builder@),
        {
            let wf = &word.fragments[idx];
            assert(f[idx as int] == wf@);
            let nature = if wf.nature() == Nature::Saarmag {
                word_nature
            } else {
                wf.nature()
            };
            let suf: &[char] = if idx + 1 < n {
                assert(f[idx + 1] == word.fragments@[idx + 1]@);
                word.fragments[idx + 1].content()
            } else {
                &[]
            };
            let key = wf.get_key();
            match self.rule.get_mapper_code(&pre, suf, key.as_str(), nature) {
                Some(s) => push_mapped(builder, key.as_str(), s),
                None => return Err(MongolConvertError::NotFoundInMapper(key)),
            }
            let content = wf.content();
            let ghost pre_before = pre@;
            for k in 0..content.len()
                invariant
                    pre@ == pre_before + content@.take(k as int),
            {
                pre.push(content[k]);
                assert(content@.take(k + 1) == content@.take(k as int).push(content@[k as int]));
            }
            assert(content@.take(content.len() as int) == content@);
        }
        Ok(())
    }
}

/// Writes a mapped text for `key`: when the key holds the connector, the leading space the
/// mappers put for it is written as the connector.
pub fn push_mapped(builder: &mut Vec<char>, key: &str, mapped: &str)
    ensures
        final(builder)@ == old(builder)@ + pushed_text(key@, mapped@),
{
    let m = chars_of(mapped);
    if str_contains_char(key, WORD_CONNECTOR) && m.len() > 0 && m[0] == ' ' {
        builder.push(WORD_CONNECTOR);
        let ghost start = builder@;
        for k in 1..m.len()
            invariant
                m@ == mapped@,
                builder@ == start + m@.subrange(1, k as int),
        {
            builder.push(m[k]);
            assert(m@.subrange(1, k + 1) == m@.subrange(1, k as int).push(m@[k as int]));
        }
        assert(m@.subrange(1, m.len() as int) =~= m@.skip(1));
        assert(builder@ =~= old(builder)@ + pushed_text(key@, mapped@));
        return;
    }
    extend_chars(builder, mapped);
}

} // verus!

verus! {

/// A letter that no fragment of its own maps, whatever its context.
pub open spec fn letter_unmappable(rule: LetterFromRule, c: char) -> bool {
    forall|h: Option<CharType>, t: Option<CharType>| !#[trigger] from_contains(rule, padded_key(h, t, seq![c]))
}

proof fn lemma_letter_run_passes(rule: LetterFromRule, cs: Seq<char>, i: int)
    requires
        0 <= i <= cs.len(),
        forall|j: int|
            0 <= j < cs.len() ==> #[trigger] cs[j] != WORD_CONNECTOR && (!from_word_char(rule, cs[j]) || letter_unmappable(
                rule,
                cs[j],
            )),
    ensures
        letter_run(
            rule,
            cs,
            i,
            LetterState {
                word: Seq::empty(),
                nature: Nature::Saarmag,
                frag: fresh_letter_frag(Some(CharType::Other)),
                out: cs.take(i),
            },
        ) == Ok::<Seq<char>, ErrorView>(cs),
    decreases cs.len() - i,
{
    if i == cs.len() {
        assert(cs.take(i) =~= cs);
    } else {
        let c = cs[i];
        assert(cs.take(i).push(c) =~= cs.take(i + 1));
        assert(c != WORD_CONNECTOR);
        if from_word_char(rule, c) {
            let tail = Some(letter_char_type(rule, next_char(cs, i)));
            assert(Seq::<char>::empty().push(c) =~= seq![c]);
            assert(letter_unmappable(rule, c));
            assert(!from_contains(rule, padded_key(Some(CharType::Other), tail, seq![c])));
        }
        lemma_letter_run_passes(rule, cs, i + 1);
    }
}

/// Text that a letter rule cannot map passes through unchanged: without the word connector,
/// every character that is no letter of the rule, or that no fragment of its own maps in any
/// context, comes out as it went in (blank text comes out empty).
pub proof fn lemma_unmapped_letters_pass_through(rule: LetterFromRule, s: Seq<char>)
    requires
        forall|j: int|
            0 <= j < s.len() ==> #[trigger] s[j] != WORD_CONNECTOR && (!from_word_char(rule, s[j]) || letter_unmappable(
                rule,
                s[j],
            )),
    ensures
        letter_translation(rule, s) == Ok::<Seq<char>, ErrorView>(if blank(s) { Seq::empty() } else { s }),
{
    let cs = s.push(SENTINEL);
    assert forall|j: int| 0 <= j < cs.len() implies #[trigger] cs[j] != WORD_CONNECTOR && (!from_word_char(rule, cs[j])
        || letter_unmappable(rule, cs[j])) by {
        if j < s.len() {
            assert(cs[j] == s[j]);
        }
    }
    lemma_letter_run_passes(rule, cs, 0);
    assert(cs.take(0) =~= Seq::<char>::empty());
    assert(cs.drop_last() =~= s);
}

} // verus!
