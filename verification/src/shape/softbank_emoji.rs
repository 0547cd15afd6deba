//! Legacy SoftBank/iOS emoji that collide with MenkShape's private-use code points.
//!
//! Old iOS/SoftBank emoji sat on part of the private-use area that MenkShape uses, and some chat
//! apps still rewrite those code points to modern Unicode emoji. Only the mappings whose
//! private-use side falls inside MenkShape's `E234..=E34F` are reversed.
use vstd::prelude::*;

verus! {

/// Modern emoji and the MenkShape code point its SoftBank original occupied.
pub const SOFTBANK_TO_MENK_SHAPE: [(char, char); 109] = [
    ('\u{27A1}', '\u{E234}'),
    ('\u{2B05}', '\u{E235}'),
    ('\u{2197}', '\u{E236}'),
    ('\u{2196}', '\u{E237}'),
    ('\u{2198}', '\u{E238}'),
    ('\u{2199}', '\u{E239}'),
    ('\u{25B6}', '\u{E23A}'),
    ('\u{25C0}', '\u{E23B}'),
    ('\u{23E9}', '\u{E23C}'),
    ('\u{23EA}', '\u{E23D}'),
    ('\u{1F52F}', '\u{E23E}'),
    ('\u{2648}', '\u{E23F}'),
    ('\u{2649}', '\u{E240}'),
    ('\u{264A}', '\u{E241}'),
    ('\u{264B}', '\u{E242}'),
    ('\u{264C}', '\u{E243}'),
    ('\u{264D}', '\u{E244}'),
    ('\u{264E}', '\u{E245}'),
    ('\u{264F}', '\u{E246}'),
    ('\u{2650}', '\u{E247}'),
    ('\u{2651}', '\u{E248}'),
    ('\u{2652}', '\u{E249}'),
    ('\u{2653}', '\u{E24A}'),
    ('\u{26CE}', '\u{E24B}'),
    ('\u{1F51D}', '\u{E24C}'),
    ('\u{1F197}', '\u{E24D}'),
    ('\u{00A9}', '\u{E24E}'),
    ('\u{00AE}', '\u{E24F}'),
    ('\u{1F4F3}', '\u{E250}'),
    ('\u{1F4F4}', '\u{E251}'),
    ('\u{26A0}', '\u{E252}'),
    ('\u{1F481}', '\u{E253}'),
    ('\u{1F4DD}', '\u{E301}'),
    ('\u{1F454}', '\u{E302}'),
    ('\u{1F33A}', '\u{E303}'),
    ('\u{1F337}', '\u{E304}'),
    ('\u{1F33B}', '\u{E305}'),
    ('\u{1F490}', '\u{E306}'),
    ('\u{1F334}', '\u{E307}'),
    ('\u{1F335}', '\u{E308}'),
    ('\u{1F6BE}', '\u{E309}'),
    ('\u{1F3A7}', '\u{E30A}'),
    ('\u{1F376}', '\u{E30B}'),
    ('\u{1F37B}', '\u{E30C}'),
    ('\u{3297}', '\u{E30D}'),
    ('\u{1F6AC}', '\u{E30E}'),
    ('\u{1F48A}', '\u{E30F}'),
    ('\u{1F388}', '\u{E310}'),
    ('\u{1F4A3}', '\u{E311}'),
    ('\u{1F389}', '\u{E312}'),
    ('\u{2702}', '\u{E313}'),
    ('\u{1F380}', '\u{E314}'),
    ('\u{3299}', '\u{E315}'),
    ('\u{1F4BD}', '\u{E316}'),
    ('\u{1F4E3}', '\u{E317}'),
    ('\u{1F452}', '\u{E318}'),
    ('\u{1F457}', '\u{E319}'),
    ('\u{1F461}', '\u{E31A}'),
    ('\u{1F462}', '\u{E31B}'),
    ('\u{1F484}', '\u{E31C}'),
    ('\u{1F485}', '\u{E31D}'),
    ('\u{1F486}', '\u{E31E}'),
    ('\u{1F487}', '\u{E31F}'),
    ('\u{1F488}', '\u{E320}'),
    ('\u{1F458}', '\u{E321}'),
    ('\u{1F459}', '\u{E322}'),
    ('\u{1F45C}', '\u{E323}'),
    ('\u{1F3AC}', '\u{E324}'),
    ('\u{1F514}', '\u{E325}'),
    ('\u{1F3B6}', '\u{E326}'),
    ('\u{1F493}', '\u{E327}'),
    ('\u{1F497}', '\u{E328}'),
    ('\u{1F498}', '\u{E329}'),
    ('\u{1F499}', '\u{E32A}'),
    ('\u{1F49A}', '\u{E32B}'),
    ('\u{1F49B}', '\u{E32C}'),
    ('\u{1F49C}', '\u{E32D}'),
    ('\u{2728}', '\u{E32E}'),
    ('\u{2B50}', '\u{E32F}'),
    ('\u{1F4A8}', '\u{E330}'),
    ('\u{1F4A6}', '\u{E331}'),
    ('\u{2B55}', '\u{E332}'),
    ('\u{274C}', '\u{E333}'),
    ('\u{1F4A2}', '\u{E334}'),
    ('\u{1F31F}', '\u{E335}'),
    ('\u{2754}', '\u{E336}'),
    ('\u{2755}', '\u{E337}'),
    ('\u{1F375}', '\u{E338}'),
    ('\u{1F35E}', '\u{E339}'),
    ('\u{1F366}', '\u{E33A}'),
    ('\u{1F35F}', '\u{E33B}'),
    ('\u{1F361}', '\u{E33C}'),
    ('\u{1F358}', '\u{E33D}'),
    ('\u{1F35A}', '\u{E33E}'),
    ('\u{1F35D}', '\u{E33F}'),
    ('\u{1F35C}', '\u{E340}'),
    ('\u{1F35B}', '\u{E341}'),
    ('\u{1F359}', '\u{E342}'),
    ('\u{1F362}', '\u{E343}'),
    ('\u{1F363}', '\u{E344}'),
    ('\u{1F34E}', '\u{E345}'),
    ('\u{1F34A}', '\u{E346}'),
    ('\u{1F353}', '\u{E347}'),
    ('\u{1F349}', '\u{E348}'),
    ('\u{1F345}', '\u{E349}'),
    ('\u{1F346}', '\u{E34A}'),
    ('\u{1F382}', '\u{E34B}'),
    ('\u{1F371}', '\u{E34C}'),
    ('\u{1F372}', '\u{E34D}'),
];

/// The emoji variation selector that may follow a restored emoji.
pub const EMOJI_VARIATION_SELECTOR: char = '\u{FE0F}';

/// The MenkShape code point a modern emoji stands for, from entry `i` on.
pub open spec fn softbank_from(c: char, i: int) -> Option<char>
    decreases 109 - i,
{
    if i < 0 || i >= 109 {
        None
    } else if SOFTBANK_TO_MENK_SHAPE@[i].0 == c {
        Some(SOFTBANK_TO_MENK_SHAPE@[i].1)
    } else {
        softbank_from(c, i + 1)
    }
}

/// The MenkShape code point a modern emoji stands for.
pub open spec fn softbank_menk_shape(c: char) -> Option<char> {
    softbank_from(c, 0)
}

/// `out` followed by the text from position `i` on with each such emoji restored and the
/// variation selector right after a restored emoji dropped (`skip` says one was just restored).
pub open spec fn restored_from(cs: Seq<char>, i: int, skip: bool, out: Seq<char>) -> Seq<char>
    decreases cs.len() - i,
{
    if i < 0 || i >= cs.len() {
        out
    } else if skip && cs[i] == EMOJI_VARIATION_SELECTOR {
        restored_from(cs, i + 1, false, out)
    } else {
        match softbank_menk_shape(cs[i]) {
            Some(m) => restored_from(cs, i + 1, true, out.push(m)),
            None => restored_from(cs, i + 1, false, out.push(cs[i])),
        }
    }
}

/// The text with the emoji that stand for MenkShape code points restored.
pub open spec fn restored(t: Seq<char>) -> Seq<char> {
    restored_from(t, 0, false, Seq::empty())
}

/// The MenkShape code point a modern emoji stands for, if it stands for one.
pub fn to_menk_shape(c: char) -> (r: Option<char>)
    ensures
        r == softbank_menk_shape(c),
{
    for i in 0..SOFTBANK_TO_MENK_SHAPE.len()
        invariant
            softbank_menk_shape(c) == softbank_from(c, i as int),
    {
        let (emoji, menk_shape) = SOFTBANK_TO_MENK_SHAPE[i];
        if emoji == c {
            return Some(menk_shape);
        }
    }
    None
}

/// Restores the legacy emoji in `text` to the MenkShape code points they stand for, dropping a
/// variation selector right after one.
pub fn restore_menk_shape(text: &str) -> (r: String)
    ensures
        r@ == restored(text@),
{
    let chars = crate::text::chars_of(text);
    let mut out: Vec<char> = Vec::new();
    let mut skip_variation_selector = false;
    for i in 0..chars.len()
        invariant
            chars@ == text@,
            restored(text@) == restored_from(text@, i as int, skip_variation_selector, out@),
    {
        let c = chars[i];
        if skip_variation_selector && c == EMOJI_VARIATION_SELECTOR {
            skip_variation_selector = false;
        } else {
            match to_menk_shape(c) {
                Some(menk_shape) => {
                    out.push(menk_shape);
                    skip_variation_selector = true;
                },
                None => {
                    out.push(c);
                    skip_variation_selector = false;
                },
            }
        }
    }
    crate::text::string_of(&out)
}

/// Where `softbank_from` finds a code point, it is the one of an entry at or after `i` whose
/// emoji is `c`.
proof fn lemma_softbank_found(c: char, i: int)
    requires
        softbank_from(c, i) is Some,
    ensures
        exists|j: int|
            0 <= j < 109 && i <= j && (#[trigger] SOFTBANK_TO_MENK_SHAPE@[j]).0 == c
                && softbank_from(c, i) == Some(SOFTBANK_TO_MENK_SHAPE@[j].1),
    decreases 109 - i,
{
    if SOFTBANK_TO_MENK_SHAPE@[i].0 != c {
        lemma_softbank_found(c, i + 1);
    }
}

/// The table's MenkShape code points rise from entry to entry.
proof fn lemma_softbank_targets_ascend(i: int, j: int)
    requires
        0 <= i < j < 109,
    ensures
        SOFTBANK_TO_MENK_SHAPE@[i].1 < SOFTBANK_TO_MENK_SHAPE@[j].1,
    decreases j - i,
{
    assert(forall|k: int| 0 <= k < 108 ==> #[trigger] SOFTBANK_TO_MENK_SHAPE@[k].1 < SOFTBANK_TO_MENK_SHAPE@[k + 1].1);
    if i + 1 < j {
        lemma_softbank_targets_ascend(i, j - 1);
        assert(SOFTBANK_TO_MENK_SHAPE@[j - 1].1 < SOFTBANK_TO_MENK_SHAPE@[j].1);
    }
}

/// Restoration reaches only MenkShape's punctuation and symbol range `E234..=E34F`, and only from
/// a code point outside the private-use area.
pub proof fn lemma_restoration_targets_menk_shape(c: char)
    ensures
        softbank_menk_shape(c) matches Some(m) ==> '\u{E234}' <= m <= '\u{E34F}' && !('\u{E000}' <= c <= '\u{F8FF}'),
{
    if softbank_menk_shape(c) is Some {
        lemma_softbank_found(c, 0);
        assert(forall|j: int|
            0 <= j < 109 ==> '\u{E234}' <= (#[trigger] SOFTBANK_TO_MENK_SHAPE@[j]).1 <= '\u{E34F}'
                && !('\u{E000}' <= SOFTBANK_TO_MENK_SHAPE@[j].0 <= '\u{F8FF}'));
    }
}

/// No two emoji are restored to the same MenkShape code point.
pub proof fn lemma_restoration_is_one_to_one(c1: char, c2: char)
    ensures
        softbank_menk_shape(c1) is Some && softbank_menk_shape(c1) == softbank_menk_shape(c2) ==> c1 == c2,
{
    if softbank_menk_shape(c1) is Some && softbank_menk_shape(c1) == softbank_menk_shape(c2) {
        lemma_softbank_found(c1, 0);
        lemma_softbank_found(c2, 0);
        let j1 = choose|j: int|
            0 <= j < 109 && 0 <= j && (#[trigger] SOFTBANK_TO_MENK_SHAPE@[j]).0 == c1
                && softbank_from(c1, 0) == Some(SOFTBANK_TO_MENK_SHAPE@[j].1);
        let j2 = choose|j: int|
            0 <= j < 109 && 0 <= j && (#[trigger] SOFTBANK_TO_MENK_SHAPE@[j]).0 == c2
                && softbank_from(c2, 0) == Some(SOFTBANK_TO_MENK_SHAPE@[j].1);
        if j1 < j2 {
            lemma_softbank_targets_ascend(j1, j2);
        } else if j2 < j1 {
            lemma_softbank_targets_ascend(j2, j1);
        }
    }
}

/// No character of `s` is an emoji that restoration rewrites.
pub open spec fn keyless(s: Seq<char>) -> bool {
    forall|k: int| 0 <= k < s.len() ==> softbank_menk_shape(#[trigger] s[k]) is None
}

/// What restoration writes is never rewritten again.
proof fn lemma_restored_from_keyless(cs: Seq<char>, i: int, skip: bool, out: Seq<char>)
    requires
        0 <= i,
        keyless(out),
    ensures
        keyless(restored_from(cs, i, skip, out)),
    decreases cs.len() - i,
{
    if i < cs.len() {
        if skip && cs[i] == EMOJI_VARIATION_SELECTOR {
            lemma_restored_from_keyless(cs, i + 1, false, out);
        } else {
            match softbank_menk_shape(cs[i]) {
                Some(m) => {
                    lemma_restoration_targets_menk_shape(cs[i]);
                    lemma_restoration_targets_menk_shape(m);
                    assert(keyless(out.push(m)));
                    lemma_restored_from_keyless(cs, i + 1, true, out.push(m));
                },
                None => {
                    assert(keyless(out.push(cs[i])));
                    lemma_restored_from_keyless(cs, i + 1, false, out.push(cs[i]));
                },
            }
        }
    }
}

/// Restoration leaves a text without such emoji as it is.
proof fn lemma_keyless_is_kept(s: Seq<char>, i: int)
    requires
        keyless(s),
        0 <= i <= s.len(),
    ensures
        restored_from(s, i, false, s.take(i)) == s,
    decreases s.len() - i,
{
    if i < s.len() {
        assert(softbank_menk_shape(s[i]) is None);
        assert(s.take(i).push(s[i]) == s.take(i + 1));
        lemma_keyless_is_kept(s, i + 1);
    } else {
        assert(s.take(i) == s);
    }
}

/// Restoring the emoji of a text a second time changes nothing.
pub proof fn lemma_restoration_is_idempotent(t: Seq<char>)
    ensures
        restored(restored(t)) == restored(t),
{
    lemma_restored_from_keyless(t, 0, false, Seq::empty());
    lemma_keyless_is_kept(restored(t), 0);
    assert(restored(t).take(0) == Seq::<char>::empty());
}

/// No two entries of the table share an emoji.
#[verifier::rlimit(100)]
proof fn lemma_softbank_emoji_distinct()
    ensures
        forall|m: int, n: int|
            0 <= m < n < 109 ==> (#[trigger] SOFTBANK_TO_MENK_SHAPE@[m]).0 != (#[trigger] SOFTBANK_TO_MENK_SHAPE@[n]).0,
{
}

/// `softbank_from` finds the entry `j` when no entry from `i` up to `j` has its emoji.
proof fn lemma_softbank_first(i: int, j: int)
    requires
        0 <= i <= j < 109,
        forall|m: int| i <= m < j ==> (#[trigger] SOFTBANK_TO_MENK_SHAPE@[m]).0 != SOFTBANK_TO_MENK_SHAPE@[j].0,
    ensures
        softbank_from(SOFTBANK_TO_MENK_SHAPE@[j].0, i) == Some(SOFTBANK_TO_MENK_SHAPE@[j].1),
    decreases j - i,
{
    if i < j {
        assert(SOFTBANK_TO_MENK_SHAPE@[i].0 != SOFTBANK_TO_MENK_SHAPE@[j].0);
        lemma_softbank_first(i + 1, j);
    }
}

/// Every emoji of the table is restored, on its own and inside a text, to the MenkShape code
/// point its SoftBank original occupied.
pub proof fn lemma_restoration_covers_the_table(j: int)
    requires
        0 <= j < 109,
    ensures
        softbank_menk_shape(SOFTBANK_TO_MENK_SHAPE@[j].0) == Some(SOFTBANK_TO_MENK_SHAPE@[j].1),
        restored(seq![SOFTBANK_TO_MENK_SHAPE@[j].0]) == seq![SOFTBANK_TO_MENK_SHAPE@[j].1],
{
    lemma_softbank_emoji_distinct();
    assert forall|m: int| 0 <= m < j implies (#[trigger] SOFTBANK_TO_MENK_SHAPE@[m]).0 != SOFTBANK_TO_MENK_SHAPE@[j].0 by {
        assert(SOFTBANK_TO_MENK_SHAPE@[m].0 != SOFTBANK_TO_MENK_SHAPE@[j].0);
    }
    lemma_softbank_first(0, j);
    let t = seq![SOFTBANK_TO_MENK_SHAPE@[j].0];
    assert(restored_from(t, 1, true, seq![SOFTBANK_TO_MENK_SHAPE@[j].1]) == seq![SOFTBANK_TO_MENK_SHAPE@[j].1]);
    assert(Seq::<char>::empty().push(SOFTBANK_TO_MENK_SHAPE@[j].1) == seq![SOFTBANK_TO_MENK_SHAPE@[j].1]);
}

} // verus!
