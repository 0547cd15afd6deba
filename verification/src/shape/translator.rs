//! The greedy longest-match segmenter shared by every shape rule, both directions.
//!
//! The text gets a sentinel `U+E666` appended. The current fragment grows while the rule maps it;
//! on a miss the longest mapped fragment is committed to the word and the character is read
//! again. A character the rule does not shape flushes the word and passes through. The sentinel
//! is taken off the end of the output.
use crate::error::{text_result, ErrorView, MongolConvertError};
use crate::tables::z52_block::{Z52_CODES, Z52_CODE_PUNCTUATIONS};
use crate::tables::z52_punctuation::UNICODE_TO_Z52_PUNCTUATION;
use crate::tables::zvvnmod_birga::ZVVNMOD_BIRGAS;
use crate::tables::zvvnmod_block::{ZVVNMOD_CODES, ZVVNMOD_PUNCTUATIONS};
use crate::shape::rule::{rule_char_type, rule_contains, rule_mapped, rule_translates, ShapeRule};
use crate::strings::{blank, is_blank};
use crate::text::{chars_of, extend_chars, string_of};
use crate::word::char_type::CharType;
use crate::word::shape_word::{shape_frag_views, ShapeFragView, ShapeWord, ShapeWordFragment};
use vstd::prelude::*;

verus! {

/// Appended to the input so that the last word is flushed; removed from the output.
pub const SENTINEL: char = '\u{e666}';

/// The character after position `i`, or the sentinel past the end.
pub open spec fn next_char(cs: Seq<char>, i: int) -> char {
    if i + 1 < cs.len() {
        cs[i + 1]
    } else {
        SENTINEL
    }
}

/// A new fragment with the given head and nothing else.
pub open spec fn fresh_frag(head: Option<CharType>) -> ShapeFragView {
    ShapeFragView { head, tail: None, content: Seq::empty() }
}

/// The segmenter's state: the committed fragments of the current word, the growing fragment, and
/// the output so far.
pub struct ShapeState {
    pub word: Seq<ShapeFragView>,
    pub frag: ShapeFragView,
    pub out: Seq<char>,
}

/// `out` followed by the rule's text for each fragment of a word, each after the hub content
/// `pre` of the fragments before it; the first unmapped fragment is an error naming its key.
pub open spec fn word_text(rule: ShapeRule, frags: Seq<ShapeFragView>, pre: Seq<char>, out: Seq<char>) -> Result<Seq<char>, ErrorView>
    decreases frags.len(),
{
    if frags.len() == 0 {
        Ok(out)
    } else {
        match rule_mapped(rule, pre, frags[0]) {
            Some(t) => word_text(rule, frags.drop_first(), pre + frags[0].content, out + t),
            None => Err(ErrorView::NotFoundInMapper(frags[0].content)),
        }
    }
}

/// The segmenter run over `cs` from position `i` in state `st`.
pub open spec fn shape_run(rule: ShapeRule, cs: Seq<char>, i: int, st: ShapeState) -> Result<Seq<char>, ErrorView>
    decreases cs.len() - i, st.frag.content.len(),
{
    if i < 0 || i >= cs.len() {
        Ok(st.out)
    } else {
        let c = cs[i];
        if rule_translates(rule, c) {
            let grown = ShapeFragView {
                tail: rule_char_type(rule, next_char(cs, i)),
                content: st.frag.content.push(c),
                ..st.frag
            };
            if rule_contains(rule, grown) {
                shape_run(rule, cs, i + 1, ShapeState { frag: grown, ..st })
            } else if st.frag.content.len() == 0 {
                if st.word.len() > 0 {
                    match word_text(rule, st.word, Seq::empty(), st.out) {
                        Ok(o) => shape_run(
                            rule,
                            cs,
                            i + 1,
                            ShapeState { word: Seq::empty(), frag: fresh_frag(Some(CharType::Other)), out: o.push(c) },
                        ),
                        Err(e) => Err(e),
                    }
                } else {
                    shape_run(
                        rule,
                        cs,
                        i + 1,
                        ShapeState { word: st.word, frag: fresh_frag(Some(CharType::Other)), out: st.out.push(c) },
                    )
                }
            } else {
                let kept = ShapeFragView { tail: rule_char_type(rule, c), ..st.frag };
                shape_run(
                    rule,
                    cs,
                    i,
                    ShapeState { word: st.word.push(kept), frag: fresh_frag(rule_char_type(rule, cs[i - 1])), out: st.out },
                )
            }
        } else {
            let word1 = if st.frag.content.len() > 0 {
                st.word.push(ShapeFragView { tail: Some(CharType::Other), ..st.frag })
            } else {
                st.word
            };
            let frag1 = if st.frag.content.len() > 0 {
                fresh_frag(Some(CharType::Other))
            } else {
                st.frag
            };
            if word1.len() > 0 {
                match word_text(rule, word1, Seq::empty(), st.out) {
                    Ok(o) => shape_run(rule, cs, i + 1, ShapeState { word: Seq::empty(), frag: frag1, out: o.push(c) }),
                    Err(e) => Err(e),
                }
            } else {
                shape_run(rule, cs, i + 1, ShapeState { word: word1, frag: frag1, out: st.out.push(c) })
            }
        }
    }
}

/// The output with its last character (the sentinel) taken off.
pub open spec fn without_last(o: Seq<char>) -> Seq<char> {
    if o.len() > 0 {
        o.drop_last()
    } else {
        o
    }
}

/// What a shape rule makes of a text: nothing for blank text, else the segmenter's output over
/// the text and the sentinel, with the sentinel removed.
pub open spec fn shape_translation(rule: ShapeRule, s: Seq<char>) -> Result<Seq<char>, ErrorView> {
    if blank(s) {
        Ok(Seq::empty())
    } else {
        match shape_run(
            rule,
            s.push(SENTINEL),
            0,
            ShapeState { word: Seq::empty(), frag: fresh_frag(Some(CharType::Other)), out: Seq::empty() },
        ) {
            Ok(o) => Ok(without_last(o)),
            Err(e) => Err(e),
        }
    }
}

/// Translates text with one shape rule.
pub struct ShapeTranslator {
    pub rule: ShapeRule,
}

impl ShapeTranslator {
    /// The translator for `rule`.
    pub fn new(rule: ShapeRule) -> (r: Self)
        ensures
            r.rule == rule,
    {
        ShapeTranslator { rule }
    }

    /// Translates `s` with this translator's rule.
    #[verifier::rlimit(40)]
    pub fn translate(&self, s: &str) -> (r: Result<String, MongolConvertError>)
        ensures
            text_result(r) == shape_translation(self.rule, s@),
    {
        if is_blank(s) {
            return Ok(String::new());
        }
        let mut chars = chars_of(s);
        chars.push(SENTINEL);
        let ghost cs = chars@;
        let mut word = ShapeWord::new();
        let mut fragment = ShapeWordFragment::new();
        let mut builder: Vec<char> = Vec::new();
        fragment.set_head(Some(CharType::Other));
        let ghost init = ShapeState { word: Seq::empty(), frag: fresh_frag(Some(CharType::Other)), out: Seq::empty() };
        assert(shape_frag_views(word.fragments@) =~= Seq::<ShapeFragView>::empty());
        let mut i: usize = 0;
        while i < chars.len()
            invariant
                chars@ == cs,
                init == (ShapeState { word: Seq::empty(), frag: fresh_frag(Some(CharType::Other)), out: Seq::empty() }),
                cs == s@.push(SENTINEL),
                !blank(s@),
                i <= cs.len(),
                fragment@.content.len() <= i,
                shape_run(self.rule, cs, 0, init) == shape_run(
                    self.rule,
                    cs,
                    i as int,
                    ShapeState { word: shape_frag_views(word.fragments@), frag: fragment@, out: builder@ },
                ),
            decreases cs.len() - i, fragment@.content.len(),
        {
            let ghost st = ShapeState { word: shape_frag_views(word.fragments@), frag: fragment@, out: builder@ };
            let c = chars[i];
            if self.rule.is_translate_code_point(c) {
                fragment.push(c);
                let next = if i + 1 < chars.len() {
                    chars[i + 1]
                } else {
                    SENTINEL
                };
                fragment.set_tail(self.rule.get_char_type(next));
                if self.rule.contains(&fragment) {
                    i += 1;
                    continue;
                }
                fragment.pop()?;
                fragment.set_tail(self.rule.get_char_type(c));
                if fragment.is_blank() {
                    if word.is_not_blank() {
                        if let Err(e) = self.translate_word(&mut builder, &word) {
                            assert(shape_run(self.rule, cs, i as int, st) == Err::<Seq<char>, ErrorView>(e@));
                            return Err(e);
                        }
                        word = ShapeWord::new();
                        assert(shape_frag_views(word.fragments@) =~= Seq::<ShapeFragView>::empty());
                    }
                    builder.push(c);
                    fragment = ShapeWordFragment::new();
                    fragment.set_head(Some(CharType::Other));
                    i += 1;
                    continue;
                }
                assert(fragment@.content =~= st.frag.content);
                let ghost before = word.fragments@;
                word.add(fragment);
                assert(shape_frag_views(word.fragments@) =~= st.word.push(
                    ShapeFragView { tail: rule_char_type(self.rule, c), ..st.frag },
                ));
                fragment = ShapeWordFragment::new();
                fragment.set_head(self.rule.get_char_type(chars[i - 1]));
                continue;
            } else {
                if fragment.is_not_blank() {
                    fragment.set_tail(Some(CharType::Other));
                    word.add(fragment);
                    assert(shape_frag_views(word.fragments@) =~= st.word.push(
                        ShapeFragView { tail: Some(CharType::Other), ..st.frag },
                    ));
                    fragment = ShapeWordFragment::new();
                    fragment.set_head(Some(CharType::Other));
                }
                if word.is_not_blank() {
                    if let Err(e) = self.translate_word(&mut builder, &word) {
                        assert(shape_run(self.rule, cs, i as int, st) == Err::<Seq<char>, ErrorView>(e@));
                        return Err(e);
                    }
                    word = ShapeWord::new();
                    assert(shape_frag_views(word.fragments@) =~= Seq::<ShapeFragView>::empty());
                }
                builder.push(c);
            }
            i += 1;
        }
        builder.pop();
        Ok(string_of(&builder))
    }

    /// Writes the rule's text for each fragment of `word`, each after the content of the ones
    /// before it.
    pub fn translate_word(&self, builder: &mut Vec<char>, word: &ShapeWord) -> (r: Result<(), MongolConvertError>)
        ensures
            match word_text(self.rule, shape_frag_views(word.fragments@), Seq::empty(), old(builder)@) {
                Ok(o) => r is Ok && final(builder)@ == o,
                Err(e) => r matches Err(x) && x@ == e,
            },
    {
        let ghost frags = shape_frag_views(word.fragments@);
        let mut pre: Vec<char> = Vec::new();
        assert(frags.skip(0) =~= frags);
        for idx in 0..word.fragments.len()
            invariant
                frags == shape_frag_views(word.fragments@),
                word_text(self.rule, frags, Seq::empty(), old(builder)@) == word_text(
                    self.rule,
                    frags.skip(idx as int),
                    pre@,
                    builder@,
                ),
        {
            let fragment = &word.fragments[idx];
            assert(frags.skip(idx as int)[0] == fragment@);
            assert(frags.skip(idx as int).drop_first() =~= frags.skip(idx + 1));
            match self.rule.get_mapper_code(&pre, fragment) {
                Some(s) => extend_chars(builder, s),
                None => return Err(MongolConvertError::NotFoundInMapper(fragment.get_key())),
            }
            let content = fragment.content();
            let ghost pre_before = pre@;
            for k in 0..content.len()
                invariant
                    pre@ == pre_before + content@.take(k as int),
            {
                pre.push(content[k]);
                assert(content@.take(k + 1) == content@.take(k as int).push(content@[k as int]));
            }
            assert(content@.take(content.len() as int) == content@);
        }
        assert(frags.skip(frags.len() as int) =~= Seq::<ShapeFragView>::empty());
        Ok(())
    }
}

} // verus!

verus! {

proof fn lemma_char_lookup_found(m: Seq<(char, Seq<char>)>, c: char, i: int)
    requires
        crate::code_mapper::char_lookup_from(m, c, i) is Some,
    ensures
        exists|j: int| 0 <= i <= j < m.len() && (#[trigger] m[j]).0 == c,
    decreases m.len() - i,
{
    if 0 <= i < m.len() && m[i].0 != c {
        lemma_char_lookup_found(m, c, i + 1);
    }
}

/// No shape rule shapes the sentinel, so it always reaches the output and comes off again.
pub proof fn lemma_sentinel_passes(rule: ShapeRule)
    ensures
        !rule_translates(rule, SENTINEL),
{
    assert(forall|j: int| 0 <= j < 15 ==> Z52_CODES@[j] != SENTINEL);
    assert(forall|j: int| 0 <= j < 21 ==> Z52_CODE_PUNCTUATIONS@[j] != SENTINEL);
    assert(forall|j: int| 0 <= j < 24 ==> ZVVNMOD_CODES@[j] != SENTINEL);
    assert(forall|j: int| 0 <= j < 42 ==> ZVVNMOD_PUNCTUATIONS@[j] != SENTINEL);
    assert(forall|j: int| 0 <= j < 4 ==> ZVVNMOD_BIRGAS@[j] != SENTINEL);
    let m = crate::code_mapper::char_table_view(UNICODE_TO_Z52_PUNCTUATION@);
    assert(forall|j: int| 0 <= j < 21 ==> #[trigger] m[j].0 != SENTINEL);
    if crate::tables::z52_punctuation::z52_punctuation_of(SENTINEL) is Some {
        lemma_char_lookup_found(m, SENTINEL, 0);
    }
}

/// A character that no fragment of its own maps, whatever its context.
pub open spec fn shape_unmappable(rule: ShapeRule, c: char) -> bool {
    forall|h: Option<CharType>, t: Option<CharType>|
        !#[trigger] rule_contains(rule, ShapeFragView { head: h, tail: t, content: seq![c] })
}

proof fn lemma_shape_run_passes(rule: ShapeRule, cs: Seq<char>, i: int)
    requires
        0 <= i <= cs.len(),
        forall|j: int| 0 <= j < cs.len() ==> !rule_translates(rule, #[trigger] cs[j]) || shape_unmappable(rule, cs[j]),
    ensures
        shape_run(
            rule,
            cs,
            i,
            ShapeState { word: Seq::empty(), frag: fresh_frag(Some(CharType::Other)), out: cs.take(i) },
        ) == Ok::<Seq<char>, ErrorView>(cs),
    decreases cs.len() - i,
{
    let st = ShapeState { word: Seq::empty(), frag: fresh_frag(Some(CharType::Other)), out: cs.take(i) };
    if i == cs.len() {
        assert(cs.take(i) =~= cs);
    } else {
        let c = cs[i];
        assert(cs.take(i).push(c) =~= cs.take(i + 1));
        if rule_translates(rule, c) {
            let grown = ShapeFragView {
                tail: rule_char_type(rule, next_char(cs, i)),
                content: st.frag.content.push(c),
                ..st.frag
            };
            assert(grown == ShapeFragView { head: Some(CharType::Other), tail: rule_char_type(rule, next_char(cs, i)), content: seq![c] });
            assert(shape_unmappable(rule, c));
            assert(!rule_contains(rule, grown));
        }
        lemma_shape_run_passes(rule, cs, i + 1);
    }
}

/// Text that a rule cannot map passes through unchanged: every character the rule does not
/// shape, or that no fragment of its own maps in any context, comes out as it went in (blank
/// text comes out empty).
pub proof fn lemma_unmapped_text_passes_through(rule: ShapeRule, s: Seq<char>)
    requires
        forall|j: int| 0 <= j < s.len() ==> !rule_translates(rule, #[trigger] s[j]) || shape_unmappable(rule, s[j]),
    ensures
        shape_translation(rule, s) == Ok::<Seq<char>, ErrorView>(if blank(s) { Seq::empty() } else { s }),
{
    let cs = s.push(SENTINEL);
    lemma_sentinel_passes(rule);
    assert forall|j: int| 0 <= j < cs.len() implies !rule_translates(rule, #[trigger] cs[j]) || shape_unmappable(rule, cs[j]) by {
        if j < s.len() {
            assert(cs[j] == s[j]);
        }
    }
    lemma_shape_run_passes(rule, cs, 0);
    assert(cs.take(0) =~= Seq::<char>::empty());
    assert(cs.drop_last() =~= s);
}

} // verus!
