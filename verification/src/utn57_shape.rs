//! `utn57_shape`: UTN #57 text spelled as written units — ᠰᠠᠢᠨ as `SAIIA`.
//!
//! Writing renders each Mongolian word of a UTN #57 text into its written units and concatenates
//! their names; reading parses each spelled word, compact `SAIIA` or joined `S+A+I+I+A`, and
//! spells the shape canonically in UTN #57. Everything that is not a word passes through.
use crate::error::{ErrorView, MongolConvertError};
use crate::text::{chars_of, extend_chars, string_of};
use crate::utn57::{
    canonical_spelling_of, is_mongolian_word_char, mongolian_word_char, normalize_written_units, parse_written_units,
    parsed_unit_names, shape_written_units, strings_view, written_units_of,
};
use vstd::prelude::*;

verus! {

broadcast use vstd::string::group_string_axioms;

/// The error of this encoding: the backend's message, prefixed.
pub open spec fn shape_error(reason: Seq<char>) -> ErrorView {
    ErrorView::Utn57("utn57_shape: "@ + reason)
}

/// The backend's message as this encoding's error.
pub fn error(reason: String) -> (r: MongolConvertError)
    ensures
        r@ == shape_error(reason@),
{
    let mut s = crate::text::owned("utn57_shape: ");
    crate::text::push_str(&mut s, reason.as_str());
    MongolConvertError::Utn57(s)
}

/// The names of written units, concatenated.
pub open spec fn joined_names(names: Seq<Seq<char>>) -> Seq<char>
    decreases names.len(),
{
    if names.len() == 0 {
        Seq::empty()
    } else {
        joined_names(names.drop_last()) + names.last()
    }
}

/// `out` followed by the spelling of a word: its written units' names, or the shaper's error.
pub open spec fn spelled_word(word: Seq<char>, out: Seq<char>) -> Result<Seq<char>, ErrorView> {
    if word.len() == 0 {
        Ok(out)
    } else {
        match written_units_of(word) {
            Ok(names) => Ok(out + joined_names(names)),
            Err(e) => Err(shape_error(e)),
        }
    }
}

/// The spelling of a UTN #57 text from position `i` on, with `word` the Mongolian word being read
/// and `out` the spelling so far.
pub open spec fn encoded_from(cs: Seq<char>, i: int, word: Seq<char>, out: Seq<char>) -> Result<Seq<char>, ErrorView>
    decreases cs.len() - i,
{
    if i < 0 || i >= cs.len() {
        spelled_word(word, out)
    } else if mongolian_word_char(cs[i]) {
        encoded_from(cs, i + 1, word.push(cs[i]), out)
    } else {
        match spelled_word(word, out) {
            Ok(o) => encoded_from(cs, i + 1, Seq::empty(), o.push(cs[i])),
            Err(e) => Err(e),
        }
    }
}

/// Writes written-unit names one after another.
pub fn join_units(names: &Vec<String>) -> (r: String)
    ensures
        r@ == joined_names(strings_view(names@)),
{
    let mut out = String::new();
    let ghost v = strings_view(names@);
    for k in 0..names.len()
        invariant
            v == strings_view(names@),
            out@ == joined_names(v.take(k as int)),
    {
        crate::text::push_str(&mut out, names[k].as_str());
        assert(v.take(k + 1).drop_last() =~= v.take(k as int));
    }
    assert(v.take(names.len() as int) =~= v);
    out
}

/// Appends the spelling of `word` to `out` and empties `word`.
fn flush(word: &mut String, out: &mut String) -> (r: Result<(), MongolConvertError>)
    ensures
        match spelled_word(old(word)@, old(out)@) {
            Ok(o) => r is Ok && final(out)@ == o && final(word)@ == Seq::<char>::empty(),
            Err(e) => r matches Err(x) && x@ == e,
        },
{
    if crate::strings::is_empty(word.as_str()) {
        assert(word@ =~= Seq::<char>::empty());
        return Ok(());
    }
    match shape_written_units(word.as_str()) {
        Ok(names) => {
            let joined = join_units(&names);
            crate::text::push_str(out, joined.as_str());
        },
        Err(reason) => return Err(error(reason)),
    }
    *word = String::new();
    Ok(())
}

/// UTN #57 text to shape text: every Mongolian word as its written units, the rest verbatim.
pub fn encode(utn57: &str) -> (r: Result<String, MongolConvertError>)
    ensures
        match encoded_from(utn57@, 0, Seq::empty(), Seq::empty()) {
            Ok(o) => r matches Ok(s) && s@ == o,
            Err(e) => r matches Err(x) && x@ == e,
        },
{
    let chars = chars_of(utn57);
    let mut out = String::new();
    let mut word = String::new();
    for i in 0..chars.len()
        invariant
            chars@ == utn57@,
            encoded_from(utn57@, 0, Seq::empty(), Seq::empty()) == encoded_from(utn57@, i as int, word@, out@),
    {
        let c = chars[i];
        if is_mongolian_word_char(c) {
            crate::text::push_char(&mut word, c);
        } else {
            flush(&mut word, &mut out)?;
            crate::text::push_char(&mut out, c);
        }
    }
    flush(&mut word, &mut out)?;
    Ok(out)
}

/// One piece of shape text: a spelled word, or anything else.
#[derive(Debug, Clone, PartialEq, Eq)]
pub enum Piece {
    Word(String),
    Other(String),
}

/// A piece as a flag (a spelled word or not) and its text.
pub open spec fn piece_view(p: Piece) -> (bool, Seq<char>) {
    match p {
        Piece::Word(s) => (true, s@),
        Piece::Other(s) => (false, s@),
    }
}

/// The characters a spelled word is made of: ASCII letters and digits, and the joiner `+`.
pub open spec fn spelling_char(c: char) -> bool {
    ('a' <= c && c <= 'z') || ('A' <= c && c <= 'Z') || ('0' <= c && c <= '9') || c == '+'
}

/// The length of the run of spelling characters at position `i`.
pub open spec fn run_len(cs: Seq<char>, i: int) -> nat
    decreases cs.len() - i,
{
    if i < 0 || i >= cs.len() || !spelling_char(cs[i]) {
        0
    } else {
        1 + run_len(cs, i + 1)
    }
}

/// The pieces of the text from position `i` on, with `other` the start of the passthrough being
/// read, if one is.
pub open spec fn split_from(cs: Seq<char>, i: int, other: Option<int>) -> Seq<(bool, Seq<char>)>
    decreases cs.len() - i,
{
    if i < 0 || i >= cs.len() {
        match other {
            Some(s) => seq![(false, cs.subrange(s, cs.len() as int))],
            None => Seq::empty(),
        }
    } else {
        let run = run_len(cs, i);
        proof {
            lemma_run_len_bound(cs, i);
        }
        if run > 0 && 'A' <= cs[i] && cs[i] <= 'Z' {
            let word = seq![(true, cs.subrange(i, i + run))];
            match other {
                Some(s) => seq![(false, cs.subrange(s, i))] + word + split_from(cs, i + run, None),
                None => word + split_from(cs, i + run, None),
            }
        } else {
            let start = match other {
                Some(s) => s,
                None => i,
            };
            split_from(cs, i + if run > 0 { run as int } else { 1 }, Some(start))
        }
    }
}

/// The pieces of a text: each maximal run of spelling characters that begins with an upper-case
/// letter is a word, and what lies between words is passthrough.
pub open spec fn split_text(t: Seq<char>) -> Seq<(bool, Seq<char>)> {
    split_from(t, 0, None)
}

/// A run of spelling characters stays inside the text, is made of spelling characters, and ends
/// before one that is not.
pub proof fn lemma_run_len_bound(cs: Seq<char>, i: int)
    requires
        0 <= i,
    ensures
        i + run_len(cs, i) <= cs.len() || run_len(cs, i) == 0,
        forall|j: int| i <= j < i + run_len(cs, i) ==> spelling_char(#[trigger] cs[j]),
        i + run_len(cs, i) < cs.len() ==> !spelling_char(cs[i + run_len(cs, i)]),
    decreases cs.len() - i,
{
    if i < cs.len() && spelling_char(cs[i]) {
        lemma_run_len_bound(cs, i + 1);
    }
}

/// The length of the run of spelling characters at `i`.
fn spelling_run(cs: &Vec<char>, i: usize) -> (r: usize)
    requires
        i <= cs.len(),
    ensures
        r == run_len(cs@, i as int),
        i + r <= cs.len(),
{
    let mut j = i;
    while j < cs.len() && is_spelling_char(cs[j])
        invariant
            i <= j <= cs.len(),
            run_len(cs@, i as int) == (j - i) + run_len(cs@, j as int),
        decreases cs.len() - j,
    {
        j += 1;
    }
    j - i
}

/// ASCII letters and digits, and `+`.
pub fn is_spelling_char(c: char) -> (r: bool)
    ensures
        r == spelling_char(c),
{
    ('a' <= c && c <= 'z') || ('A' <= c && c <= 'Z') || ('0' <= c && c <= '9') || c == '+'
}

/// The characters `cs[from..to]` as a string.
fn slice_string(cs: &Vec<char>, from: usize, to: usize) -> (r: String)
    requires
        from <= to <= cs.len(),
    ensures
        r@ == cs@.subrange(from as int, to as int),
{
    let mut s = String::new();
    for k in from..to
        invariant
            to <= cs.len(),
            s@ == cs@.subrange(from as int, k as int),
    {
        crate::text::push_char(&mut s, cs[k]);
        assert(cs@.subrange(from as int, k + 1) == cs@.subrange(from as int, k as int).push(cs@[k as int]));
    }
    s
}

/// Splits shape text into spelled words and passthrough.
///
/// A word is a maximal run of ASCII letters, digits and `+` that begins with an upper-case
/// letter; a run that begins otherwise (`2024`, `hello`) is not a spelling and passes through
/// with whatever surrounds it.
pub fn split(text: &str) -> (r: Vec<Piece>)
    ensures
        r@.map_values(|p: Piece| piece_view(p)) == split_text(text@),
{
    let cs = chars_of(text);
    let mut pieces: Vec<Piece> = Vec::new();
    let mut other_start: Option<usize> = None;
    let mut index: usize = 0;
    while index < cs.len()
        invariant
            cs@ == text@,
            index <= cs.len(),
            other_start matches Some(s) ==> s <= index,
            split_text(text@) == pieces@.map_values(|p: Piece| piece_view(p)) + split_from(
                cs@,
                index as int,
                match other_start {
                    Some(s) => Some(s as int),
                    None => None,
                },
            ),
        decreases cs.len() - index,
    {
        let ghost before = pieces@.map_values(|p: Piece| piece_view(p));
        let ghost oi: Option<int> = match other_start {
            Some(s) => Some(s as int),
            None => None,
        };
        let run = spelling_run(&cs, index);
        if run > 0 && 'A' <= cs[index] && cs[index] <= 'Z' {
            if let Some(start) = other_start {
                pieces.push(Piece::Other(slice_string(&cs, start, index)));
                other_start = None;
            }
            pieces.push(Piece::Word(slice_string(&cs, index, index + run)));
            let ghost lead: Seq<(bool, Seq<char>)> = match oi {
                Some(s) => seq![(false, cs@.subrange(s, index as int))],
                None => Seq::empty(),
            };
            assert(pieces@.map_values(|p: Piece| piece_view(p)) =~= before + lead + seq![
                (true, cs@.subrange(index as int, index + run)),
            ]);
            assert(split_from(cs@, index as int, oi) =~= lead + seq![(true, cs@.subrange(index as int, index + run))]
                + split_from(cs@, index + run, None));
            index += run;
        } else {
            if other_start.is_none() {
                other_start = Some(index);
            }
            index += if run > 0 {
                run
            } else {
                1
            };
        }
    }
    let ghost before = pieces@.map_values(|p: Piece| piece_view(p));
    if let Some(start) = other_start {
        pieces.push(Piece::Other(slice_string(&cs, start, cs.len())));
        assert(pieces@.map_values(|p: Piece| piece_view(p)) =~= before + seq![(false, cs@.subrange(start as int, cs.len() as int))]);
    } else {
        assert(before + Seq::<(bool, Seq<char>)>::empty() =~= before);
    }
    pieces
}

} // verus!

verus! {

/// The texts of the pieces, one after another.
pub open spec fn pieces_text(ps: Seq<(bool, Seq<char>)>) -> Seq<char>
    decreases ps.len(),
{
    if ps.len() == 0 {
        Seq::empty()
    } else {
        ps[0].1 + pieces_text(ps.drop_first())
    }
}

proof fn lemma_pieces_text_append(a: Seq<(bool, Seq<char>)>, b: Seq<(bool, Seq<char>)>)
    ensures
        pieces_text(a + b) == pieces_text(a) + pieces_text(b),
    decreases a.len(),
{
    if a.len() > 0 {
        assert((a + b).drop_first() =~= a.drop_first() + b);
        lemma_pieces_text_append(a.drop_first(), b);
    } else {
        assert(a + b =~= b);
    }
}

proof fn lemma_split_from_partition(cs: Seq<char>, i: int, other: Option<int>)
    requires
        0 <= i <= cs.len(),
        other matches Some(s) ==> 0 <= s < i,
    ensures
        pieces_text(split_from(cs, i, other)) == cs.subrange(
            match other {
                Some(s) => s,
                None => i,
            },
            cs.len() as int,
        ),
        forall|k: int|
            0 <= k < split_from(cs, i, other).len() ==> {
                let p = #[trigger] split_from(cs, i, other)[k];
                &&& p.1.len() > 0
                &&& p.0 ==> 'A' <= p.1[0] <= 'Z' && forall|j: int| 0 <= j < p.1.len() ==> spelling_char(#[trigger] p.1[j])
            },
    decreases cs.len() - i,
{
    let start = match other {
        Some(s) => s,
        None => i,
    };
    if i >= cs.len() {
        match other {
            Some(s) => {
                let one = seq![(false, cs.subrange(s, cs.len() as int))];
                assert(one.drop_first() =~= Seq::<(bool, Seq<char>)>::empty());
                assert(pieces_text(one.drop_first()) == Seq::<char>::empty());
                assert(pieces_text(one) =~= cs.subrange(s, cs.len() as int));
                if s == i {
                    assert(split_from(cs, i, other) == one);
                }
            },
            None => {
                assert(cs.subrange(i, cs.len() as int) =~= Seq::<char>::empty());
            },
        }
        if let Some(s) = other {
            assert(split_from(cs, i, other)[0].1 == cs.subrange(s, cs.len() as int));
        }
    } else {
        let run = run_len(cs, i);
        lemma_run_len_bound(cs, i);
        if run > 0 && 'A' <= cs[i] && cs[i] <= 'Z' {
            lemma_split_from_partition(cs, i + run, None);
            let word = seq![(true, cs.subrange(i, i + run))];
            let rest = split_from(cs, i + run, None);
            assert(word.drop_first() =~= Seq::<(bool, Seq<char>)>::empty());
            assert(pieces_text(word.drop_first()) == Seq::<char>::empty());
            assert(pieces_text(word) =~= cs.subrange(i, i + run));
            lemma_pieces_text_append(word, rest);
            let lead: Seq<(bool, Seq<char>)> = match other {
                Some(s) => seq![(false, cs.subrange(s, i))],
                None => Seq::empty(),
            };
            if lead.len() > 0 {
                assert(lead.drop_first() =~= Seq::<(bool, Seq<char>)>::empty());
                assert(pieces_text(lead.drop_first()) == Seq::<char>::empty());
            }
            assert(pieces_text(lead) =~= cs.subrange(start, i));
            lemma_pieces_text_append(lead, word + rest);
            assert(split_from(cs, i, other) =~= lead + (word + rest));
            assert(cs.subrange(start, i) + (cs.subrange(i, i + run) + cs.subrange(i + run, cs.len() as int)) =~= cs.subrange(
                start,
                cs.len() as int,
            ));
            let all = split_from(cs, i, other);
            assert forall|k: int| 0 <= k < all.len() implies {
                let p = #[trigger] all[k];
                &&& p.1.len() > 0
                &&& p.0 ==> 'A' <= p.1[0] <= 'Z' && forall|j: int| 0 <= j < p.1.len() ==> spelling_char(#[trigger] p.1[j])
            } by {
                if k < lead.len() {
                    assert(all[k] == lead[k]);
                    match other {
                        Some(s) => {
                            assert(lead[k].1 == cs.subrange(s, i));
                            if s == i {
                                // A passthrough run is only open after at least one character.
                            }
                        },
                        None => {},
                    }
                } else if k == lead.len() {
                    assert(all[k] == word[0]);
                    assert forall|j: int| 0 <= j < run implies spelling_char(#[trigger] cs.subrange(i, i + run)[j]) by {
                        assert(cs.subrange(i, i + run)[j] == cs[i + j]);
                    }
                } else {
                    assert(all[k] == rest[k - lead.len() - 1]);
                }
            }
        } else {
            let step = if run > 0 { run as int } else { 1 };
            lemma_split_from_partition(cs, i + step, Some(start));
        }
    }
}

/// Splitting loses and adds nothing: the pieces, one after another, are the text; and every
/// piece is non-empty, every word piece an upper-case-led run of spelling characters.
pub proof fn lemma_split_partition(t: Seq<char>)
    ensures
        pieces_text(split_text(t)) == t,
        forall|k: int|
            0 <= k < split_text(t).len() ==> {
                let p = #[trigger] split_text(t)[k];
                &&& p.1.len() > 0
                &&& p.0 ==> 'A' <= p.1[0] <= 'Z' && forall|j: int| 0 <= j < p.1.len() ==> spelling_char(#[trigger] p.1[j])
            },
{
    lemma_split_from_partition(t, 0, None);
    assert(t.subrange(0, t.len() as int) =~= t);
}

} // verus!

verus! {

/// `out` followed by the UTN #57 text of the pieces from index `i` on: each spelled word read as
/// written units and spelled canonically, the rest verbatim.
pub open spec fn decoded_from(ps: Seq<(bool, Seq<char>)>, i: int, out: Seq<char>) -> Result<Seq<char>, ErrorView>
    decreases ps.len() - i,
{
    if i < 0 || i >= ps.len() {
        Ok(out)
    } else if ps[i].0 {
        match parsed_unit_names(ps[i].1) {
            Err(e) => Err(shape_error(e)),
            Ok(names) => match canonical_spelling_of(names) {
                Err(e) => Err(shape_error(e)),
                Ok(t) => decoded_from(ps, i + 1, out + t),
            },
        }
    } else {
        decoded_from(ps, i + 1, out + ps[i].1)
    }
}

/// Shape text to UTN #57 text: every spelled word as its canonical spelling, the rest verbatim.
///
/// A spelled word that is not one — an unknown unit, an ambiguous compact segmentation, a shape
/// with no canonical spelling — is an error, not passthrough.
pub fn decode(shape: &str) -> (r: Result<String, MongolConvertError>)
    ensures
        match decoded_from(split_text(shape@), 0, Seq::empty()) {
            Ok(o) => r matches Ok(s) && s@ == o,
            Err(e) => r matches Err(x) && x@ == e,
        },
{
    let pieces = split(shape);
    let ghost ps = pieces@.map_values(|p: Piece| piece_view(p));
    let mut out = String::new();
    for k in 0..pieces.len()
        invariant
            ps == pieces@.map_values(|p: Piece| piece_view(p)),
            ps == split_text(shape@),
            decoded_from(ps, 0, Seq::empty()) == decoded_from(ps, k as int, out@),
    {
        assert(ps[k as int] == piece_view(pieces@[k as int]));
        match &pieces[k] {
            Piece::Word(word) => {
                let names = match parse_written_units(word.as_str()) {
                    Ok(names) => names,
                    Err(reason) => return Err(error(reason)),
                };
                match normalize_written_units(&names) {
                    Ok(text) => crate::text::push_str(&mut out, text.as_str()),
                    Err(reason) => return Err(error(reason)),
                }
            },
            Piece::Other(text) => crate::text::push_str(&mut out, text.as_str()),
        }
    }
    Ok(out)
}

} // verus!
