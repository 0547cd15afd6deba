//! Punctuation spacing for the two shape encodings.
//!
//! The punctuation glyphs of the shape fonts carry no side bearing, so a shape text writes a gap
//! next to each mark on the side the mark takes one: MenkShape with its own space `U+E263`, Z52
//! with the narrow no-break space. Marks that end a clause take the gap before them, closing
//! brackets after, the middle dot on both sides, and the remaining marks none. Reading a shape
//! text takes the gap back out, so that a shape text and the hub text it came from agree.
use crate::code_type::CodeType;
use crate::text::{chars_of, is_whitespace, string_of, white_space};
use vstd::prelude::*;

verus! {

/// The side of a mark that carries the gap.
#[derive(Copy, Clone, PartialEq, Eq, Debug, Structural)]
pub enum Side {
    Before,
    After,
    Both,
}

/// Whether the side includes the gap before the mark.
pub open spec fn gap_before(s: Side) -> bool {
    s == Side::Before || s == Side::Both
}

/// Whether the side includes the gap after the mark.
pub open spec fn gap_after(s: Side) -> bool {
    s == Side::After || s == Side::Both
}

impl Side {
    /// The gap goes before the mark.
    pub fn before(self) -> (r: bool)
        ensures
            r == gap_before(self),
    {
        self == Side::Before || self == Side::Both
    }

    /// The gap goes after the mark.
    pub fn after(self) -> (r: bool)
        ensures
            r == gap_after(self),
    {
        self == Side::After || self == Side::Both
    }
}

/// One encoding's gap: the space it is written with, and the marks that take it.
pub struct Gap {
    space: char,
    spaced: &'static [(char, Side)],
}

/// The value of a [`Gap`].
pub struct GapView {
    pub space: char,
    pub spaced: Seq<(char, Side)>,
}

impl View for Gap {
    type V = GapView;

    closed spec fn view(&self) -> GapView {
        GapView { space: self.space, spaced: self.spaced@ }
    }
}

/// Every Menksoft punctuation mark that takes a gap, and on which side. The marks left out take
/// none: `E234` birga, `E23A`, `E23B`, `E25E` ×, `E25F` ※, `E260` -, `E261` |, and the digits
/// `E244..=E24D`, which have a wide left bearing of their own.
pub const MENK_SHAPE_SPACED: [(char, Side); 24] = [
    ('\u{E235}', Side::Before),
    ('\u{E236}', Side::Before),
    ('\u{E237}', Side::Before),
    ('\u{E238}', Side::Before),
    ('\u{E239}', Side::Before),
    ('\u{E23C}', Side::Before),
    ('\u{E23D}', Side::Before),
    ('\u{E243}', Side::Both),
    ('\u{E24E}', Side::Before),
    ('\u{E24F}', Side::Before),
    ('\u{E250}', Side::Before),
    ('\u{E251}', Side::Before),
    ('\u{E252}', Side::Before),
    ('\u{E253}', Side::Before),
    ('\u{E254}', Side::After),
    ('\u{E255}', Side::Before),
    ('\u{E256}', Side::After),
    ('\u{E257}', Side::Before),
    ('\u{E258}', Side::After),
    ('\u{E259}', Side::Before),
    ('\u{E25A}', Side::After),
    ('\u{E25B}', Side::Before),
    ('\u{E25C}', Side::After),
    ('\u{E25D}', Side::Before),
];

/// Z52's own punctuation `184F..=185F` that takes a gap; `1860..=1863` take none, and the
/// Mongolian marks Z52 passes through as Unicode have the gap drawn in.
pub const Z52_SPACED: [(char, Side); 17] = [
    ('\u{184F}', Side::Both),
    ('\u{1850}', Side::Before),
    ('\u{1851}', Side::Before),
    ('\u{1852}', Side::Before),
    ('\u{1853}', Side::Before),
    ('\u{1854}', Side::Before),
    ('\u{1855}', Side::Before),
    ('\u{1856}', Side::After),
    ('\u{1857}', Side::Before),
    ('\u{1858}', Side::After),
    ('\u{1859}', Side::Before),
    ('\u{185A}', Side::After),
    ('\u{185B}', Side::Before),
    ('\u{185C}', Side::After),
    ('\u{185D}', Side::Before),
    ('\u{185E}', Side::After),
    ('\u{185F}', Side::Before),
];

/// Menksoft's own space, U+E263.
pub const MENK_SHAPE_GAP: char = '\u{E263}';

/// The narrow no-break space, Z52's gap.
pub const Z52_GAP: char = '\u{202F}';

/// The gap an encoding writes, if it writes one.
pub open spec fn gap_of(code: CodeType) -> Option<GapView> {
    match code {
        CodeType::MenkShape => Some(GapView { space: MENK_SHAPE_GAP, spaced: MENK_SHAPE_SPACED@ }),
        CodeType::Z52 => Some(GapView { space: Z52_GAP, spaced: Z52_SPACED@ }),
        _ => None,
    }
}

/// The gap an encoding writes, if it writes one.
pub fn of(code: CodeType) -> (r: Option<Gap>)
    ensures
        r matches Some(g) ==> gap_of(code) == Some(g@),
        r is None <==> gap_of(code) is None,
{
    match code {
        CodeType::MenkShape => Some(Gap { space: MENK_SHAPE_GAP, spaced: &MENK_SHAPE_SPACED }),
        CodeType::Z52 => Some(Gap { space: Z52_GAP, spaced: &Z52_SPACED }),
        _ => None,
    }
}

/// The side of the first entry for `c`, from index `i` on.
pub open spec fn side_from(spaced: Seq<(char, Side)>, c: char, i: int) -> Option<Side>
    decreases spaced.len() - i,
{
    if i < 0 || i >= spaced.len() {
        None
    } else if spaced[i].0 == c {
        Some(spaced[i].1)
    } else {
        side_from(spaced, c, i + 1)
    }
}

/// The side on which the mark `c` takes the gap, if it takes one.
pub open spec fn side_of(g: GapView, c: char) -> Option<Side> {
    side_from(g.spaced, c, 0)
}

/// A mark that takes the gap before it.
pub open spec fn before_mark(g: GapView, c: char) -> bool {
    side_of(g, c) matches Some(s) && gap_before(s)
}

/// A mark that takes the gap after it.
pub open spec fn after_mark(g: GapView, c: char) -> bool {
    side_of(g, c) matches Some(s) && gap_after(s)
}

/// The output so far, made ready for a mark that takes the gap before it: a trailing ordinary
/// space becomes the gap (or is dropped, where the gap of the mark before already stands in
/// front of it, so that the two marks share one gap), a trailing gap or other whitespace is
/// left, and anything else gets the gap; nothing is written at the start of the text.
pub open spec fn gap_before_mark(space: char, out: Seq<char>) -> Seq<char> {
    if out.len() == 0 {
        out
    } else if out.last() == ' ' {
        if out.len() >= 2 && out[out.len() - 2] == space {
            out.drop_last()
        } else {
            out.drop_last().push(space)
        }
    } else if out.last() == space || white_space(out.last()) {
        out
    } else {
        out.push(space)
    }
}

/// The gap after a mark that takes it there, given the character after the mark: nothing at the
/// end of the text or before a gap or other whitespace (but the gap before an ordinary space,
/// which the collapse then drops).
pub open spec fn gap_after_mark(space: char, out: Seq<char>, cs: Seq<char>, i: int) -> Seq<char> {
    if i + 1 >= cs.len() {
        out
    } else if cs[i + 1] == ' ' {
        out.push(space)
    } else if cs[i + 1] == space || white_space(cs[i + 1]) {
        out
    } else {
        out.push(space)
    }
}

/// `out` followed by the text from position `i` on with the gaps written in.
pub open spec fn spaced_from(g: GapView, cs: Seq<char>, i: int, out: Seq<char>) -> Seq<char>
    decreases cs.len() - i,
{
    if i < 0 || i >= cs.len() {
        out
    } else {
        let c = cs[i];
        match side_of(g, c) {
            None => spaced_from(g, cs, i + 1, out.push(c)),
            Some(s) => {
                let o1 = if gap_before(s) { gap_before_mark(g.space, out) } else { out };
                let o2 = o1.push(c);
                let o3 = if gap_after(s) { gap_after_mark(g.space, o2, cs, i) } else { o2 };
                spaced_from(g, cs, i + 1, o3)
            },
        }
    }
}

/// `out` followed by `s` from position `i` on, without the ordinary spaces that follow a gap
/// (`prev` is the last character kept).
pub open spec fn collapsed_from(space: char, s: Seq<char>, i: int, prev: Option<char>, out: Seq<char>) -> Seq<char>
    decreases s.len() - i,
{
    if i < 0 || i >= s.len() {
        out
    } else if s[i] == ' ' && prev == Some(space) {
        collapsed_from(space, s, i + 1, prev, out)
    } else {
        collapsed_from(space, s, i + 1, Some(s[i]), out.push(s[i]))
    }
}

/// The text with the gaps written in.
pub open spec fn inserted(g: GapView, t: Seq<char>) -> Seq<char> {
    collapsed_from(g.space, spaced_from(g, t, 0, Seq::empty()), 0, None, Seq::empty())
}

/// `out` followed by the text from position `i` on with the gaps taken out; `skip` drops the
/// character at `i`, a gap after a mark that takes it there.
pub open spec fn stripped_from(g: GapView, cs: Seq<char>, i: int, skip: bool, out: Seq<char>) -> Seq<char>
    decreases cs.len() - i,
{
    if i < 0 || i >= cs.len() {
        out
    } else if skip {
        stripped_from(g, cs, i + 1, false, out)
    } else if cs[i] == g.space && i + 1 < cs.len() && before_mark(g, cs[i + 1]) {
        stripped_from(g, cs, i + 1, false, out)
    } else {
        stripped_from(g, cs, i + 1, after_mark(g, cs[i]) && i + 1 < cs.len() && cs[i + 1] == g.space, out.push(cs[i]))
    }
}

/// The text with the gaps taken out.
pub open spec fn stripped(g: GapView, t: Seq<char>) -> Seq<char> {
    stripped_from(g, t, 0, false, Seq::empty())
}

impl Gap {
    /// The side on which the mark `c` takes the gap, if it takes one.
    pub fn side(&self, c: char) -> (r: Option<Side>)
        ensures
            r == side_of(self@, c),
    {
        let ghost sp = self@.spaced;
        for i in 0..self.spaced.len()
            invariant
                sp == self.spaced@,
                side_of(self@, c) == side_from(sp, c, i as int),
        {
            let (mark, side) = self.spaced[i];
            if mark == c {
                return Some(side);
            }
        }
        None
    }

    /// Writes the gap into shape text.
    ///
    /// A mark that already has the gap on the side it takes is left alone; an ordinary space there
    /// becomes the gap rather than being doubled; any other whitespace, and the edge of the text,
    /// already separates the mark. Everything else gets one inserted.
    pub fn insert(&self, text: &str) -> (r: String)
        ensures
            r@ == inserted(self@, text@),
    {
        let chars = chars_of(text);
        let ghost cs = chars@;
        let mut out: Vec<char> = Vec::new();
        for index in 0..chars.len()
            invariant
                chars@ == cs,
                cs == text@,
                spaced_from(self@, cs, 0, Seq::empty()) == spaced_from(self@, cs, index as int, out@),
        {
            let c = chars[index];
            match self.side(c) {
                None => out.push(c),
                Some(side) => {
                    if side.before() && out.len() > 0 {
                        let previous = out[out.len() - 1];
                        if previous == ' ' {
                            out.pop();
                            let shared = out.len() > 0 && out[out.len() - 1] == self.space;
                            if !shared {
                                out.push(self.space);
                            }
                        } else if previous == self.space || is_whitespace(previous) {
                        } else {
                            out.push(self.space);
                        }
                    }
                    out.push(c);
                    if side.after() && index + 1 < chars.len() {
                        let next = chars[index + 1];
                        if next == ' ' {
                            out.push(self.space);
                        } else if next == self.space || is_whitespace(next) {
                        } else {
                            out.push(self.space);
                        }
                    }
                },
            }
        }
        let mut collapsed: Vec<char> = Vec::new();
        let mut previous: Option<char> = None;
        let ghost spaced = out@;
        for k in 0..out.len()
            invariant
                out@ == spaced,
                spaced == spaced_from(self@, cs, 0, Seq::empty()),
                inserted(self@, cs) == collapsed_from(self.space, spaced, k as int, previous, collapsed@),
        {
            let c = out[k];
            if !(c == ' ' && previous == Some(self.space)) {
                collapsed.push(c);
                previous = Some(c);
            }
        }
        string_of(&collapsed)
    }

    /// Takes the gap back out, so that it does not reach the hub.
    ///
    /// Only a gap on the side its mark takes is removed; one anywhere else is a space the text
    /// meant to have and is left alone.
    pub fn strip(&self, text: &str) -> (r: String)
        ensures
            r@ == stripped(self@, text@),
    {
        let chars = chars_of(text);
        let ghost cs = chars@;
        let mut out: Vec<char> = Vec::new();
        let mut skip_next = false;
        for index in 0..chars.len()
            invariant
                chars@ == cs,
                cs == text@,
                stripped(self@, cs) == stripped_from(self@, cs, index as int, skip_next, out@),
        {
            let c = chars[index];
            if skip_next {
                skip_next = false;
            } else {
                let gap_of_next = c == self.space && index + 1 < chars.len() && match self.side(chars[index + 1]) {
                    Some(next_side) => next_side.before(),
                    None => false,
                };
                if !gap_of_next {
                    out.push(c);
                    let after = match self.side(c) {
                        Some(s) => s.after(),
                        None => false,
                    };
                    skip_next = after && index + 1 < chars.len() && chars[index + 1] == self.space;
                }
            }
        }
        string_of(&out)
    }
}

} // verus!

verus! {

/// A gap that can be written and read back: its space is no ordinary space, and no mark is the
/// space or whitespace.
pub open spec fn gap_wf(g: GapView) -> bool {
    g.space != ' ' && forall|c: char| #[trigger] side_of(g, c) is Some ==> c != g.space && !white_space(c)
}

/// A text whose ordinary spaces and gap characters sit on no side where a mark takes the gap,
/// and with no ordinary space right after a gap character: the texts that writing the gap and
/// taking it out again give back unchanged.
pub open spec fn gap_round_trips(g: GapView, t: Seq<char>) -> bool {
    forall|i: int|
        0 <= i < t.len() ==> {
            &&& (#[trigger] t[i] == ' ' || t[i] == g.space) ==> !(i + 1 < t.len() && before_mark(g, t[i + 1]))
                && !(i > 0 && after_mark(g, t[i - 1]))
            &&& (t[i] == ' ' && i > 0) ==> t[i - 1] != g.space
        }
}

/// Whether a gap is written after the character at `i`.
spec fn post_gap(g: GapView, t: Seq<char>, i: int) -> bool {
    0 <= i && after_mark(g, t[i]) && i + 1 < t.len() && t[i + 1] != g.space && !white_space(t[i + 1])
}

/// Whether a gap is written before the character at `i`.
spec fn pre_gap(g: GapView, t: Seq<char>, i: int) -> bool {
    before_mark(g, t[i]) && i > 0 && !post_gap(g, t, i - 1) && t[i - 1] != g.space && !white_space(t[i - 1])
}

/// What writing the gap makes of the character at `i`.
spec fn piece(g: GapView, t: Seq<char>, i: int) -> Seq<char> {
    (if pre_gap(g, t, i) { seq![g.space] } else { Seq::empty() }) + seq![t[i]] + (if post_gap(g, t, i) {
        seq![g.space]
    } else {
        Seq::empty()
    })
}

/// The pieces of the first `n` characters.
spec fn pieces(g: GapView, t: Seq<char>, n: int) -> Seq<char>
    decreases n,
{
    if n <= 0 {
        Seq::empty()
    } else {
        pieces(g, t, n - 1) + piece(g, t, n - 1)
    }
}

proof fn lemma_pieces_last(g: GapView, t: Seq<char>, i: int)
    requires
        0 < i <= t.len(),
    ensures
        pieces(g, t, i).len() > 0,
        pieces(g, t, i).last() == (if post_gap(g, t, i - 1) { g.space } else { t[i - 1] }),
{
    let p = piece(g, t, i - 1);
    assert(pieces(g, t, i) == pieces(g, t, i - 1) + p);
}

proof fn lemma_spaced_pieces(g: GapView, t: Seq<char>, i: int)
    requires
        gap_wf(g),
        gap_round_trips(g, t),
        0 <= i <= t.len(),
    ensures
        spaced_from(g, t, i, pieces(g, t, i)) == pieces(g, t, t.len() as int),
    decreases t.len() - i,
{
    if i < t.len() {
        let out = pieces(g, t, i);
        let c = t[i];
        assert(pieces(g, t, i + 1) == out + piece(g, t, i));
        if i > 0 {
            lemma_pieces_last(g, t, i);
        }
        match side_of(g, c) {
            None => {
                assert(!pre_gap(g, t, i) && !post_gap(g, t, i));
                assert(out.push(c) =~= out + piece(g, t, i));
            },
            Some(s) => {
                let o1 = if gap_before(s) { gap_before_mark(g.space, out) } else { out };
                assert(o1 == out + (if pre_gap(g, t, i) { seq![g.space] } else { Seq::empty() })) by {
                    if gap_before(s) && i > 0 {
                        let prev = t[i - 1];
                        assert(t[i] == c);
                        if post_gap(g, t, i - 1) {
                            assert(side_of(g, t[i - 1]) is Some);
                        } else {
                            assert(out.last() == prev);
                            if prev == ' ' || prev == g.space {
                                assert(false);
                            }
                        }
                        assert(out.len() > 0);
                    }
                    if !gap_before(s) {
                        assert(!pre_gap(g, t, i));
                    }
                    if i == 0 {
                        assert(!pre_gap(g, t, i));
                    }
                    assert(o1 =~= out + (if pre_gap(g, t, i) { seq![g.space] } else { Seq::empty() }));
                }
                let o2 = o1.push(c);
                let o3 = if gap_after(s) { gap_after_mark(g.space, o2, t, i) } else { o2 };
                assert(o3 =~= out + piece(g, t, i)) by {
                    if gap_after(s) && i + 1 < t.len() {
                        let next = t[i + 1];
                        if next == ' ' || next == g.space {
                            assert(t[i + 1] == next);
                            assert(false);
                        }
                    }
                }
            },
        }
        lemma_spaced_pieces(g, t, i + 1);
    }
}

proof fn lemma_pieces_prefix(g: GapView, t: Seq<char>, i: int, n: int)
    requires
        0 <= i <= n,
    ensures
        pieces(g, t, i).len() <= pieces(g, t, n).len(),
        pieces(g, t, n).subrange(0, pieces(g, t, i).len() as int) == pieces(g, t, i),
    decreases n,
{
    if i < n {
        lemma_pieces_prefix(g, t, i, n - 1);
        let a = pieces(g, t, n - 1);
        assert(pieces(g, t, n) == a + piece(g, t, n - 1));
        assert((a + piece(g, t, n - 1)).subrange(0, pieces(g, t, i).len() as int) =~= a.subrange(
            0,
            pieces(g, t, i).len() as int,
        ));
    } else {
        assert(pieces(g, t, n).subrange(0, pieces(g, t, n).len() as int) =~= pieces(g, t, n));
    }
}

proof fn lemma_no_blank_after_gap(g: GapView, t: Seq<char>, n: int)
    requires
        gap_wf(g),
        gap_round_trips(g, t),
        0 <= n <= t.len(),
    ensures
        forall|j: int|
            0 < j < pieces(g, t, n).len() && #[trigger] pieces(g, t, n)[j] == ' ' ==> pieces(g, t, n)[j - 1] != g.space,
    decreases n,
{
    if n > 0 {
        lemma_no_blank_after_gap(g, t, n - 1);
        let a = pieces(g, t, n - 1);
        let p = piece(g, t, n - 1);
        let s = pieces(g, t, n);
        assert(s == a + p);
        if n > 1 {
            lemma_pieces_last(g, t, n - 1);
        }
        assert forall|j: int| 0 < j < s.len() && #[trigger] s[j] == ' ' implies s[j - 1] != g.space by {
            if j < a.len() {
                assert(s[j] == a[j] && s[j - 1] == a[j - 1]);
            } else {
                let k = j - a.len();
                let c = t[n - 1];
                assert(p[k] == ' ');
                if pre_gap(g, t, n - 1) {
                    assert(p[0] == g.space && p[1] == c);
                    if k == 1 {
                        assert(side_of(g, c) is Some);
                    }
                } else {
                    assert(p[0] == c);
                    if k == 0 {
                        assert(c == ' ');
                        assert(s[j - 1] == a.last());
                        assert(t[n - 1] == ' ');
                        if post_gap(g, t, n - 2) {
                            assert(after_mark(g, t[n - 2]));
                        }
                    }
                }
                if k > 0 && p[k - 1] == c {
                    assert(c == ' ' || side_of(g, c) is Some);
                }
            }
        }
    }
}

proof fn lemma_collapse_identity(space: char, s: Seq<char>, i: int, out: Seq<char>)
    requires
        0 <= i <= s.len(),
        forall|j: int| 0 < j < s.len() && #[trigger] s[j] == ' ' ==> s[j - 1] != space,
    ensures
        collapsed_from(space, s, i, if i == 0 { None } else { Some(s[i - 1]) }, out) == out + s.skip(i),
    decreases s.len() - i,
{
    if i < s.len() {
        lemma_collapse_identity(space, s, i + 1, out.push(s[i]));
        assert(out.push(s[i]) + s.skip(i + 1) =~= out + s.skip(i));
    } else {
        assert(out + s.skip(i) =~= out);
    }
}

proof fn lemma_strip_pieces(g: GapView, t: Seq<char>, i: int)
    requires
        gap_wf(g),
        gap_round_trips(g, t),
        0 <= i <= t.len(),
    ensures
        stripped_from(g, pieces(g, t, t.len() as int), pieces(g, t, i).len() as int, false, t.take(i)) == t,
    decreases t.len() - i,
{
    let n = t.len() as int;
    let s = pieces(g, t, n);
    if i == n {
        assert(t.take(n) =~= t);
    } else {
        let k = pieces(g, t, i).len() as int;
        let k1 = pieces(g, t, i + 1).len() as int;
        let p = piece(g, t, i);
        lemma_pieces_prefix(g, t, i + 1, n);
        assert(pieces(g, t, i + 1) == pieces(g, t, i) + p);
        assert(k1 == k + p.len());
        assert forall|j: int| 0 <= j < p.len() implies #[trigger] s[k + j] == p[j] by {
            assert(s.subrange(0, k1)[k + j] == s[k + j]);
        }
        let c = t[i];
        let pos = if pre_gap(g, t, i) { k + 1 } else { k };
        assert(p[pos - k] == c);
        assert(s[k + (pos - k)] == p[pos - k]);
        assert(s[pos] == c);
        // What follows the character: its own gap, or the next piece.
        if i + 1 < n {
            lemma_pieces_prefix(g, t, i + 2, n);
            assert(pieces(g, t, i + 2) == pieces(g, t, i + 1) + piece(g, t, i + 1));
            assert(s.subrange(0, pieces(g, t, i + 2).len() as int)[k1] == s[k1]);
            assert(s[k1] == piece(g, t, i + 1)[0]);
        } else {
            lemma_pieces_prefix(g, t, i + 1, n);
            assert(k1 == s.len());
        }
        let skip_after = after_mark(g, c) && pos + 1 < s.len() && s[pos + 1] == g.space;
        assert(skip_after == post_gap(g, t, i)) by {
            if post_gap(g, t, i) {
                assert(s[k + (p.len() - 1)] == p[p.len() - 1]);
                assert(pos + 1 == k + (p.len() - 1));
            } else if after_mark(g, c) && i + 1 < n {
                assert(pos + 1 == k1);
                let d = t[i + 1];
                if pre_gap(g, t, i + 1) {
                    assert(side_of(g, d) is Some);
                    assert(false);
                }
                assert(s[k1] == d);
                if d == g.space {
                    assert(t[i + 1] == d);
                    assert(false);
                }
            }
        }
        let dropped = c == g.space && pos + 1 < s.len() && before_mark(g, s[pos + 1]);
        assert(!dropped) by {
            if c == g.space && pos + 1 < s.len() {
                assert(!post_gap(g, t, i));
                assert(pos + 1 == k1);
                if pre_gap(g, t, i + 1) {
                    assert(!white_space(t[i]));
                    assert(t[i] != g.space);
                }
                assert(s[k1] == t[i + 1]);
                assert(t[i] == c);
            }
        }
        assert(t.take(i).push(c) =~= t.take(i + 1));
        if pre_gap(g, t, i) {
            assert(s[k + 0] == p[0]);
            assert(s[k] == g.space);
            assert(stripped_from(g, s, k, false, t.take(i)) == stripped_from(g, s, k + 1, false, t.take(i)));
        }
        assert(stripped_from(g, s, pos, false, t.take(i)) == stripped_from(g, s, pos + 1, skip_after, t.take(i + 1)));
        if post_gap(g, t, i) {
            assert(stripped_from(g, s, pos + 1, true, t.take(i + 1)) == stripped_from(g, s, pos + 2, false, t.take(i + 1)));
            assert(pos + 2 == k1);
        } else {
            assert(pos + 1 == k1);
        }
        lemma_strip_pieces(g, t, i + 1);
    }
}

/// Writing the gap into a shape text and taking it out again gives the text back, for every text
/// whose ordinary spaces and gap characters sit on no side where a mark takes the gap.
pub proof fn lemma_strip_undoes_insert(g: GapView, t: Seq<char>)
    requires
        gap_wf(g),
        gap_round_trips(g, t),
    ensures
        stripped(g, inserted(g, t)) == t,
{
    let n = t.len() as int;
    lemma_spaced_pieces(g, t, 0);
    assert(pieces(g, t, 0) =~= Seq::<char>::empty());
    let s = pieces(g, t, n);
    lemma_no_blank_after_gap(g, t, n);
    lemma_collapse_identity(g.space, s, 0, Seq::empty());
    assert(Seq::<char>::empty() + s.skip(0) =~= s);
    lemma_strip_pieces(g, t, 0);
    assert(t.take(0) =~= Seq::<char>::empty());
}

} // verus!

verus! {

proof fn lemma_side_from_found(sp: Seq<(char, Side)>, c: char, i: int)
    requires
        side_from(sp, c, i) is Some,
    ensures
        exists|j: int| i <= j < sp.len() && 0 <= j && (#[trigger] sp[j]).0 == c,
    decreases sp.len() - i,
{
    if i >= 0 && i < sp.len() && sp[i].0 != c {
        lemma_side_from_found(sp, c, i + 1);
    }
}

/// Both shape encodings' gaps can be written and read back.
pub proof fn lemma_shape_gaps_wf(code: CodeType)
    ensures
        gap_of(code) matches Some(g) ==> gap_wf(g),
{
    if let Some(g) = gap_of(code) {
        let lo: char = if code == CodeType::MenkShape { '\u{E235}' } else { '\u{184F}' };
        let hi: char = if code == CodeType::MenkShape { '\u{E25D}' } else { '\u{185F}' };
        assert(forall|j: int| 0 <= j < g.spaced.len() ==> lo <= (#[trigger] g.spaced[j]).0 <= hi);
        assert forall|c: char| #[trigger] side_of(g, c) is Some implies c != g.space && !white_space(c) by {
            lemma_side_from_found(g.spaced, c, 0);
        }
    }
}

/// The text without its ordinary spaces and gap characters: what spacing leaves alone.
pub open spec fn unspaced(space: char, s: Seq<char>) -> Seq<char>
    decreases s.len(),
{
    if s.len() == 0 {
        s
    } else if s.last() == ' ' || s.last() == space {
        unspaced(space, s.drop_last())
    } else {
        unspaced(space, s.drop_last()).push(s.last())
    }
}

proof fn lemma_unspaced_concat(space: char, a: Seq<char>, b: Seq<char>)
    ensures
        unspaced(space, a + b) == unspaced(space, a) + unspaced(space, b),
    decreases b.len(),
{
    if b.len() == 0 {
        assert(a + b =~= a);
        assert(unspaced(space, a) + unspaced(space, b) =~= unspaced(space, a));
    } else {
        assert((a + b).drop_last() =~= a + b.drop_last());
        lemma_unspaced_concat(space, a, b.drop_last());
        if b.last() == ' ' || b.last() == space {
        } else {
            assert(unspaced(space, a) + unspaced(space, b.drop_last()).push(b.last()) =~= (unspaced(space, a) + unspaced(
                space,
                b.drop_last(),
            )).push(b.last()));
        }
    }
}

proof fn lemma_unspaced_push(space: char, a: Seq<char>, c: char)
    ensures
        unspaced(space, a.push(c)) == if c == ' ' || c == space { unspaced(space, a) } else { unspaced(space, a).push(c) },
{
    assert(a.push(c).drop_last() =~= a);
}

proof fn lemma_spaced_keeps_the_rest(g: GapView, cs: Seq<char>, i: int, out: Seq<char>)
    requires
        0 <= i <= cs.len(),
    ensures
        unspaced(g.space, spaced_from(g, cs, i, out)) == unspaced(g.space, out + cs.subrange(i, cs.len() as int)),
    decreases cs.len() - i,
{
    let rest = cs.subrange(i, cs.len() as int);
    if i == cs.len() {
        assert(out + rest =~= out);
    } else {
        let c = cs[i];
        let next = cs.subrange(i + 1, cs.len() as int);
        assert(rest =~= seq![c] + next);
        lemma_unspaced_concat(g.space, out, rest);
        lemma_unspaced_concat(g.space, seq![c], next);
        assert(seq![c] =~= Seq::<char>::empty().push(c));
        lemma_unspaced_push(g.space, Seq::<char>::empty(), c);
        match side_of(g, c) {
            None => {
                lemma_spaced_keeps_the_rest(g, cs, i + 1, out.push(c));
                lemma_unspaced_concat(g.space, out.push(c), next);
                lemma_unspaced_push(g.space, out, c);
            },
            Some(sd) => {
                let o1 = if gap_before(sd) { gap_before_mark(g.space, out) } else { out };
                if gap_before(sd) && out.len() > 0 && out.last() == ' ' {
                    assert(out =~= out.drop_last().push(' '));
                    lemma_unspaced_push(g.space, out.drop_last(), ' ');
                    lemma_unspaced_push(g.space, out.drop_last(), g.space);
                } else if gap_before(sd) && out.len() > 0 {
                    lemma_unspaced_push(g.space, out, g.space);
                }
                assert(unspaced(g.space, o1) == unspaced(g.space, out));
                let o2 = o1.push(c);
                lemma_unspaced_push(g.space, o1, c);
                let o3 = if gap_after(sd) { gap_after_mark(g.space, o2, cs, i) } else { o2 };
                lemma_unspaced_push(g.space, o2, g.space);
                assert(unspaced(g.space, o3) == unspaced(g.space, o2));
                lemma_spaced_keeps_the_rest(g, cs, i + 1, o3);
                lemma_unspaced_concat(g.space, o3, next);
            },
        }
    }
}

proof fn lemma_collapse_keeps_the_rest(space: char, s: Seq<char>, i: int, prev: Option<char>, out: Seq<char>)
    requires
        0 <= i <= s.len(),
    ensures
        unspaced(space, collapsed_from(space, s, i, prev, out)) == unspaced(space, out + s.subrange(i, s.len() as int)),
    decreases s.len() - i,
{
    let rest = s.subrange(i, s.len() as int);
    if i == s.len() {
        assert(out + rest =~= out);
    } else {
        let c = s[i];
        let next = s.subrange(i + 1, s.len() as int);
        assert(rest =~= seq![c] + next);
        lemma_unspaced_concat(space, out, rest);
        lemma_unspaced_concat(space, seq![c], next);
        assert(seq![c] =~= Seq::<char>::empty().push(c));
        lemma_unspaced_push(space, Seq::<char>::empty(), c);
        if c == ' ' && prev == Some(space) {
            lemma_collapse_keeps_the_rest(space, s, i + 1, prev, out);
            lemma_unspaced_concat(space, out, next);
        } else {
            lemma_collapse_keeps_the_rest(space, s, i + 1, Some(c), out.push(c));
            lemma_unspaced_concat(space, out.push(c), next);
            lemma_unspaced_push(space, out, c);
        }
    }
}

/// Writing the gap changes nothing but ordinary spaces and gap characters: with those taken out,
/// the text is the one given.
pub proof fn lemma_insert_keeps_every_other_character(g: GapView, t: Seq<char>)
    ensures
        unspaced(g.space, inserted(g, t)) == unspaced(g.space, t),
{
    let sp = spaced_from(g, t, 0, Seq::empty());
    lemma_spaced_keeps_the_rest(g, t, 0, Seq::empty());
    assert(Seq::<char>::empty() + t.subrange(0, t.len() as int) =~= t);
    lemma_collapse_keeps_the_rest(g.space, sp, 0, None, Seq::empty());
    assert(Seq::<char>::empty() + sp.subrange(0, sp.len() as int) =~= sp);
}

/// A character that already separates a mark from its neighbour: the gap, or whitespace other
/// than the ordinary space.
pub open spec fn separator(g: GapView, c: char) -> bool {
    c == g.space || (white_space(c) && c != ' ')
}

/// Every mark has a separator on each side where it takes the gap, short of the text's edge.
pub open spec fn marks_separated(g: GapView, s: Seq<char>) -> bool {
    &&& forall|p: int| 0 < p < s.len() && before_mark(g, #[trigger] s[p]) ==> separator(g, s[p - 1])
    &&& forall|p: int| 0 <= p && p + 1 < s.len() && after_mark(g, #[trigger] s[p]) ==> separator(g, s[p + 1])
}

/// A text that writing the gap leaves as it is: its marks are separated, and no ordinary space
/// follows a gap character.
pub open spec fn settled(g: GapView, s: Seq<char>) -> bool {
    &&& marks_separated(g, s)
    &&& forall|p: int| 0 < p < s.len() && #[trigger] s[p] == ' ' ==> s[p - 1] != g.space
}

proof fn lemma_spaced_separates(g: GapView, cs: Seq<char>, i: int, out: Seq<char>)
    requires
        gap_wf(g),
        0 <= i <= cs.len(),
        marks_separated(g, out),
        out.len() > 0 && after_mark(g, out.last()) ==> i == cs.len() || separator(g, cs[i]),
    ensures
        marks_separated(g, spaced_from(g, cs, i, out)),
    decreases cs.len() - i,
{
    if i < cs.len() {
        let c = cs[i];
        match side_of(g, c) {
            None => {
                let o = out.push(c);
                assert(marks_separated(g, o)) by {
                    assert forall|p: int| 0 < p < o.len() && before_mark(g, #[trigger] o[p]) implies separator(g, o[p - 1]) by {
                        assert(o[p] == out[p]);
                    }
                    assert forall|p: int| 0 <= p && p + 1 < o.len() && after_mark(g, #[trigger] o[p]) implies separator(g, o[p + 1]) by {
                        if p + 1 < out.len() {
                            assert(o[p] == out[p]);
                        }
                    }
                }
                lemma_spaced_separates(g, cs, i + 1, o);
            },
            Some(sd) => {
                assert(!separator(g, c));
                let o1 = if gap_before(sd) { gap_before_mark(g.space, out) } else { out };
                assert(marks_separated(g, o1) && (o1.len() == 0 || !gap_before(sd) || separator(g, o1.last()))) by {
                    if gap_before(sd) && out.len() > 0 {
                        if out.last() == ' ' {
                            let d = out.drop_last();
                            assert forall|p: int| 0 < p < d.len() && before_mark(g, #[trigger] d[p]) implies separator(g, d[p - 1]) by {
                                assert(d[p] == out[p]);
                            }
                            assert forall|p: int| 0 <= p && p + 1 < d.len() && after_mark(g, #[trigger] d[p]) implies separator(g, d[p + 1]) by {
                                assert(d[p] == out[p]);
                            }
                            if !(out.len() >= 2 && out[out.len() - 2] == g.space) {
                                let e = d.push(g.space);
                                assert forall|p: int| 0 < p < e.len() && before_mark(g, #[trigger] e[p]) implies separator(g, e[p - 1]) by {
                                    assert(e[p] == d[p]);
                                }
                                assert forall|p: int| 0 <= p && p + 1 < e.len() && after_mark(g, #[trigger] e[p]) implies separator(g, e[p + 1]) by {
                                    assert(e[p] == out[p]);
                                    if p + 1 == out.len() - 1 {
                                        assert(out[p + 1] == ' ');
                                    }
                                }
                            }
                        } else if !(out.last() == g.space || white_space(out.last())) {
                            let e = out.push(g.space);
                            assert forall|p: int| 0 < p < e.len() && before_mark(g, #[trigger] e[p]) implies separator(g, e[p - 1]) by {
                                assert(e[p] == out[p]);
                            }
                            assert forall|p: int| 0 <= p && p + 1 < e.len() && after_mark(g, #[trigger] e[p]) implies separator(g, e[p + 1]) by {
                                assert(e[p] == out[p]);
                            }
                        }
                    }
                }
                assert(o1.len() > 0 ==> !after_mark(g, o1.last())) by {
                    if o1.len() > 0 && after_mark(g, o1.last()) {
                        assert(side_of(g, o1.last()) is Some);
                        assert(!separator(g, o1.last()));
                        assert(o1 == out);
                    }
                }
                let o2 = o1.push(c);
                assert(marks_separated(g, o2)) by {
                    assert forall|p: int| 0 < p < o2.len() && before_mark(g, #[trigger] o2[p]) implies separator(g, o2[p - 1]) by {
                        if p < o1.len() {
                            assert(o2[p] == o1[p]);
                        }
                    }
                    assert forall|p: int| 0 <= p && p + 1 < o2.len() && after_mark(g, #[trigger] o2[p]) implies separator(g, o2[p + 1]) by {
                        if p + 1 < o1.len() {
                            assert(o2[p] == o1[p]);
                        }
                    }
                }
                let o3 = if gap_after(sd) { gap_after_mark(g.space, o2, cs, i) } else { o2 };
                if o3 != o2 {
                    assert(o3 == o2.push(g.space));
                    assert forall|p: int| 0 < p < o3.len() && before_mark(g, #[trigger] o3[p]) implies separator(g, o3[p - 1]) by {
                        assert(o3[p] == o2[p]);
                    }
                    assert forall|p: int| 0 <= p && p + 1 < o3.len() && after_mark(g, #[trigger] o3[p]) implies separator(g, o3[p + 1]) by {
                        assert(o3[p] == o2[p]);
                    }
                }
                lemma_spaced_separates(g, cs, i + 1, o3);
            },
        }
    }
}

proof fn lemma_collapse_settles(g: GapView, s: Seq<char>, i: int, prev: Option<char>, out: Seq<char>)
    requires
        gap_wf(g),
        marks_separated(g, s),
        0 <= i <= s.len(),
        out.len() <= i,
        prev == (if out.len() == 0 { None } else { Some(out.last()) }),
        settled(g, out),
        out.len() > 0 && out.last() != g.space ==> i > 0 && s[i - 1] == out.last(),
        i > 0 && s[i - 1] != ' ' ==> out.len() > 0 && out.last() == s[i - 1],
    ensures
        settled(g, collapsed_from(g.space, s, i, prev, out)),
    decreases s.len() - i,
{
    if i < s.len() {
        let c = s[i];
        if c == ' ' && prev == Some(g.space) {
            lemma_collapse_settles(g, s, i + 1, prev, out);
        } else {
            let o = out.push(c);
            if out.len() > 0 && after_mark(g, out.last()) {
                assert(side_of(g, out.last()) is Some);
                assert(s[i - 1] == out.last());
                assert(after_mark(g, s[i - 1]));
                assert(separator(g, s[i]));
            }
            if before_mark(g, c) && out.len() > 0 {
                assert(separator(g, s[i - 1]));
            }
            assert forall|p: int| 0 < p < o.len() && before_mark(g, #[trigger] o[p]) implies separator(g, o[p - 1]) by {
                if p < out.len() {
                    assert(o[p] == out[p]);
                }
            }
            assert forall|p: int| 0 <= p && p + 1 < o.len() && after_mark(g, #[trigger] o[p]) implies separator(g, o[p + 1]) by {
                if p + 1 < out.len() {
                    assert(o[p] == out[p]);
                }
            }
            assert forall|p: int| 0 < p < o.len() && #[trigger] o[p] == ' ' implies o[p - 1] != g.space by {
                if p < out.len() {
                    assert(o[p] == out[p]);
                }
            }
            lemma_collapse_settles(g, s, i + 1, Some(c), o);
        }
    }
}

proof fn lemma_settled_spaced_identity(g: GapView, t: Seq<char>, i: int)
    requires
        gap_wf(g),
        settled(g, t),
        0 <= i <= t.len(),
    ensures
        spaced_from(g, t, i, t.take(i)) == t,
    decreases t.len() - i,
{
    if i < t.len() {
        let c = t[i];
        assert(t.take(i).push(c) =~= t.take(i + 1));
        if let Some(sd) = side_of(g, c) {
            if gap_before(sd) && i > 0 {
                assert(t.take(i).last() == t[i - 1]);
                assert(separator(g, t[i - 1]));
            }
            if gap_after(sd) && i + 1 < t.len() {
                assert(separator(g, t[i + 1]));
            }
        }
        lemma_settled_spaced_identity(g, t, i + 1);
    } else {
        assert(t.take(i) =~= t);
    }
}

/// Writing the gap into a text twice gives what writing it once gives.
pub proof fn lemma_insert_is_idempotent(g: GapView, t: Seq<char>)
    requires
        gap_wf(g),
    ensures
        inserted(g, inserted(g, t)) == inserted(g, t),
{
    let sp = spaced_from(g, t, 0, Seq::empty());
    lemma_spaced_separates(g, t, 0, Seq::empty());
    lemma_collapse_settles(g, sp, 0, None, Seq::empty());
    let u = inserted(g, t);
    lemma_settled_spaced_identity(g, u, 0);
    assert(u.take(0) =~= Seq::<char>::empty());
    lemma_collapse_identity(g.space, u, 0, Seq::empty());
    assert(Seq::<char>::empty() + u.skip(0) =~= u);
}

} // verus!
