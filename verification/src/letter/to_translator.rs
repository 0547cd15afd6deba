//! ZVVNMOD -> letter encoding.
//!
//! Hub codes are grouped greedily into fragments the rule maps; on a miss the longest mapped
//! fragment is committed and the new fragment starts with the character that missed (it is not
//! read again). A character outside the hub's glyphs ends the word, which the rule then writes as
//! a whole, and passes through.
use crate::error::{text_result, ErrorView, MongolConvertError};
use crate::letter::rule::{concat_connector, to_contains, to_word, LetterToRule};
use crate::shape::translator::{without_last, SENTINEL};
use crate::strings::{blank, is_blank};
use crate::text::{chars_of, string_of};
use crate::unicode::zvvnmod;
use crate::word::nature::Nature;
use crate::word::shape_word::{empty_shape_frag, is_hundii_marker, shape_frag_views, ShapeFragView, ShapeWord, ShapeWordFragment};
use vstd::prelude::*;

verus! {

/// The writer's state: the committed fragments of the current word and the word's nature, the
/// growing fragment, and the output so far.
pub struct LetterToState {
    pub word: Seq<ShapeFragView>,
    pub nature: Nature,
    pub frag: ShapeFragView,
    pub out: Seq<char>,
}

/// `out` followed by the rule's text for a word, its leading connector replacing a boundary at
/// the end of `out`.
pub open spec fn written_word(rule: LetterToRule, f: Seq<ShapeFragView>, n: Nature, out: Seq<char>) -> Result<Seq<char>, ErrorView> {
    match to_word(rule, f, n) {
        Ok(s) => Ok(concat_connector(out, s)),
        Err(e) => Err(e),
    }
}

/// The nature of a word after a fragment with this content is added.
pub open spec fn marked_nature(n: Nature, content: Seq<char>) -> Nature {
    if is_hundii_marker(content) {
        Nature::Hundii
    } else {
        n
    }
}

/// The writer run over `cs` from position `i` in state `st`.
pub open spec fn letter_to_run(rule: LetterToRule, cs: Seq<char>, i: int, st: LetterToState) -> Result<Seq<char>, ErrorView>
    decreases cs.len() - i,
{
    if i < 0 || i >= cs.len() {
        Ok(st.out)
    } else {
        let c = cs[i];
        if zvvnmod::zvvnmod_code(c) {
            let grown = ShapeFragView { content: st.frag.content.push(c), ..st.frag };
            if to_contains(rule, grown.content) {
                letter_to_run(rule, cs, i + 1, LetterToState { frag: grown, ..st })
            } else if st.frag.content.len() == 0 {
                if st.word.len() > 0 {
                    match written_word(rule, st.word, st.nature, st.out) {
                        Ok(o) => letter_to_run(
                            rule,
                            cs,
                            i + 1,
                            LetterToState {
                                word: Seq::empty(),
                                nature: Nature::Chagh,
                                frag: empty_shape_frag(),
                                out: o.push(c),
                            },
                        ),
                        Err(e) => Err(e),
                    }
                } else {
                    letter_to_run(
                        rule,
                        cs,
                        i + 1,
                        LetterToState { frag: empty_shape_frag(), out: st.out.push(c), ..st },
                    )
                }
            } else {
                letter_to_run(
                    rule,
                    cs,
                    i + 1,
                    LetterToState {
                        word: st.word.push(st.frag),
                        nature: marked_nature(st.nature, st.frag.content),
                        frag: ShapeFragView { content: seq![c], ..empty_shape_frag() },
                        out: st.out,
                    },
                )
            }
        } else {
            let nonblank = st.frag.content.len() > 0;
            let word1 = if nonblank { st.word.push(st.frag) } else { st.word };
            let nature1 = if nonblank { marked_nature(st.nature, st.frag.content) } else { st.nature };
            let frag1 = if nonblank { empty_shape_frag() } else { st.frag };
            if word1.len() > 0 {
                match written_word(rule, word1, nature1, st.out) {
                    Ok(o) => letter_to_run(
                        rule,
                        cs,
                        i + 1,
                        LetterToState { word: Seq::empty(), nature: Nature::Chagh, frag: frag1, out: o.push(c) },
                    ),
                    Err(e) => Err(e),
                }
            } else {
                letter_to_run(rule, cs, i + 1, LetterToState { word: word1, nature: nature1, frag: frag1, out: st.out.push(c) })
            }
        }
    }
}

/// What a letter rule writes for a hub text: nothing for blank text, else the writer's output
/// over the text and the sentinel, with the sentinel removed.
pub open spec fn letter_to_translation(rule: LetterToRule, s: Seq<char>) -> Result<Seq<char>, ErrorView> {
    if blank(s) {
        Ok(Seq::empty())
    } else {
        match letter_to_run(
            rule,
            s.push(SENTINEL),
            0,
            LetterToState { word: Seq::empty(), nature: Nature::Chagh, frag: empty_shape_frag(), out: Seq::empty() },
        ) {
            Ok(o) => Ok(without_last(o)),
            Err(e) => Err(e),
        }
    }
}

/// Writes the hub as a letter encoding.
pub struct LetterToTranslator {
    pub rule: LetterToRule,
}

impl LetterToTranslator {
    /// The translator for `rule`.
    pub fn new(rule: LetterToRule) -> (r: Self)
        ensures
            r.rule == rule,
    {
        LetterToTranslator { rule }
    }

    /// Writes the hub text `s` in this translator's encoding.
    #[verifier::rlimit(40)]
    pub fn translate(&self, s: &str) -> (r: Result<String, MongolConvertError>)
        ensures
            text_result(r) == letter_to_translation(self.rule, s@),
    {
        if is_blank(s) {
            return Ok(String::new());
        }
        let mut chars = chars_of(s);
        chars.push(SENTINEL);
        let ghost cs = chars@;
        let mut builder: Vec<char> = Vec::new();
        let mut fragment = ShapeWordFragment::new();
        let mut word = ShapeWord::new();
        let ghost init = LetterToState {
            word: Seq::empty(),
            nature: Nature::Chagh,
            frag: empty_shape_frag(),
            out: Seq::empty(),
        };
        assert(shape_frag_views(word.fragments@) =~= Seq::<ShapeFragView>::empty());
        let mut i: usize = 0;
        while i < chars.len()
            invariant
                chars@ == cs,
                init == (LetterToState {
                    word: Seq::empty(),
                    nature: Nature::Chagh,
                    frag: empty_shape_frag(),
                    out: Seq::empty(),
                }),
                cs == s@.push(SENTINEL),
                !blank(s@),
                i <= cs.len(),
                letter_to_run(self.rule, cs, 0, init) == letter_to_run(
                    self.rule,
                    cs,
                    i as int,
                    LetterToState {
                        word: shape_frag_views(word.fragments@),
                        nature: word.nature,
                        frag: fragment@,
                        out: builder@,
                    },
                ),
            decreases cs.len() - i,
        {
            let ghost st = LetterToState {
                word: shape_frag_views(word.fragments@),
                nature: word.nature,
                frag: fragment@,
                out: builder@,
            };
            let c = chars[i];
            if self.rule.is_translate_code_point(c) {
                fragment.push(c);
                if self.rule.contains(fragment.get_key().as_str()) {
                    i += 1;
                    continue;
                }
                fragment.pop()?;
                if fragment.is_blank() {
                    if word.is_not_blank() {
                        if let Err(e) = self.rule.get_mapper_code(&mut builder, &word) {
                            assert(letter_to_run(self.rule, cs, i as int, st) == Err::<Seq<char>, ErrorView>(e@));
                            return Err(e);
                        }
                        word = ShapeWord::new();
                        assert(shape_frag_views(word.fragments@) =~= Seq::<ShapeFragView>::empty());
                    }
                    builder.push(c);
                    fragment = ShapeWordFragment::new();
                    i += 1;
                    continue;
                }
                assert(fragment@.content =~= st.frag.content);
                word.add(fragment);
                assert(shape_frag_views(word.fragments@) =~= st.word.push(st.frag));
                fragment = ShapeWordFragment::new();
                fragment.push(c);
            } else {
                if fragment.is_not_blank() {
                    word.add(fragment);
                    assert(shape_frag_views(word.fragments@) =~= st.word.push(st.frag));
                    fragment = ShapeWordFragment::new();
                }
                if word.is_not_blank() {
                    if let Err(e) = self.rule.get_mapper_code(&mut builder, &word) {
                        assert(letter_to_run(self.rule, cs, i as int, st) == Err::<Seq<char>, ErrorView>(e@));
                        return Err(e);
                    }
                    word = ShapeWord::new();
                    assert(shape_frag_views(word.fragments@) =~= Seq::<ShapeFragView>::empty());
                }
                builder.push(c);
            }
            i += 1;
        }
        builder.pop();
        Ok(string_of(&builder))
    }
}

} // verus!

verus! {

proof fn lemma_letter_to_run_passes(rule: LetterToRule, cs: Seq<char>, i: int)
    requires
        0 <= i <= cs.len(),
        forall|j: int| 0 <= j < cs.len() ==> !zvvnmod::zvvnmod_code(#[trigger] cs[j]) || !to_contains(rule, seq![cs[j]]),
    ensures
        letter_to_run(
            rule,
            cs,
            i,
            LetterToState { word: Seq::empty(), nature: Nature::Chagh, frag: empty_shape_frag(), out: cs.take(i) },
        ) == Ok::<Seq<char>, ErrorView>(cs),
    decreases cs.len() - i,
{
    if i == cs.len() {
        assert(cs.take(i) =~= cs);
    } else {
        let c = cs[i];
        assert(cs.take(i).push(c) =~= cs.take(i + 1));
        assert(Seq::<char>::empty().push(c) =~= seq![c]);
        lemma_letter_to_run_passes(rule, cs, i + 1);
    }
}

/// Hub text that a letter rule cannot map passes through unchanged: every character that is no
/// hub glyph, or a glyph the rule does not map on its own, comes out as it went in (blank text
/// comes out empty).
pub proof fn lemma_unmapped_hub_passes_through(rule: LetterToRule, s: Seq<char>)
    requires
        forall|j: int| 0 <= j < s.len() ==> !zvvnmod::zvvnmod_code(#[trigger] s[j]) || !to_contains(rule, seq![s[j]]),
    ensures
        letter_to_translation(rule, s) == Ok::<Seq<char>, ErrorView>(if blank(s) { Seq::empty() } else { s }),
{
    let cs = s.push(SENTINEL);
    crate::shape::translator::lemma_sentinel_passes(crate::shape::rule::ShapeRule::MenkShapeTo);
    assert forall|j: int| 0 <= j < cs.len() implies !zvvnmod::zvvnmod_code(#[trigger] cs[j]) || !to_contains(
        rule,
        seq![cs[j]],
    ) by {
        if j < s.len() {
            assert(cs[j] == s[j]);
        }
    }
    lemma_letter_to_run_passes(rule, cs, 0);
    assert(cs.take(0) =~= Seq::<char>::empty());
    assert(cs.drop_last() =~= s);
}

} // verus!
