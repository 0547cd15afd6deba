//! The four ornate Birgas: MenkShape stores them in the BMP private-use area, the ZVVNMOD hub as
//! the standard Mongolian Supplement scalars.
use crate::text::str_eq;
use vstd::prelude::*;

verus! {

broadcast use vstd::string::group_string_axioms;

pub const MENK_SHAPE_BIRGAS: [char; 4] = ['\u{E23F}', '\u{E240}', '\u{E241}', '\u{E242}'];

pub const ZVVNMOD_BIRGAS: [char; 4] = ['\u{11660}', '\u{11661}', '\u{11662}', '\u{11663}'];

/// The hub spelling of a MenkShape Birga.
pub open spec fn menk_birga_hub(c: char) -> Option<Seq<char>> {
    if c == '\u{E23F}' {
        Some("\u{11660}"@)
    } else if c == '\u{E240}' {
        Some("\u{11661}"@)
    } else if c == '\u{E241}' {
        Some("\u{11662}"@)
    } else if c == '\u{E242}' {
        Some("\u{11663}"@)
    } else {
        None
    }
}

/// The MenkShape spelling of a hub Birga key.
pub open spec fn hub_birga_menk(key: Seq<char>) -> Option<Seq<char>> {
    if key == "\u{11660}"@ {
        Some("\u{E23F}"@)
    } else if key == "\u{11661}"@ {
        Some("\u{E240}"@)
    } else if key == "\u{11662}"@ {
        Some("\u{E241}"@)
    } else if key == "\u{11663}"@ {
        Some("\u{E242}"@)
    } else {
        None
    }
}

/// The hub spelling of a MenkShape Birga.
pub fn menk_shape_birga_to_zvvnmod(character: char) -> (r: Option<&'static str>)
    ensures
        r matches Some(v) ==> menk_birga_hub(character) == Some(v@),
        r is None <==> menk_birga_hub(character) is None,
{
    if character == '\u{E23F}' {
        Some("\u{11660}")
    } else if character == '\u{E240}' {
        Some("\u{11661}")
    } else if character == '\u{E241}' {
        Some("\u{11662}")
    } else if character == '\u{E242}' {
        Some("\u{11663}")
    } else {
        None
    }
}

/// The MenkShape spelling of a hub Birga key.
pub fn zvvnmod_birga_to_menk_shape(key: &str) -> (r: Option<&'static str>)
    ensures
        r matches Some(v) ==> hub_birga_menk(key@) == Some(v@),
        r is None <==> hub_birga_menk(key@) is None,
{
    if str_eq(key, "\u{11660}") {
        Some("\u{E23F}")
    } else if str_eq(key, "\u{11661}") {
        Some("\u{E240}")
    } else if str_eq(key, "\u{11662}") {
        Some("\u{E241}")
    } else if str_eq(key, "\u{11663}") {
        Some("\u{E242}")
    } else {
        None
    }
}

} // verus!

verus! {

/// The Birgas go between MenkShape and the hub one for one: each MenkShape Birga's hub spelling
/// is written back as that Birga, and each hub Birga's MenkShape spelling reads back as it.
pub proof fn lemma_birga_round_trip(c: char, key: Seq<char>)
    ensures
        menk_birga_hub(c) matches Some(k) ==> hub_birga_menk(k) == Some(seq![c]),
        hub_birga_menk(key) matches Some(m) ==> m.len() == 1 && menk_birga_hub(m[0]) == Some(key),
{
    reveal_strlit("\u{11660}");
    reveal_strlit("\u{11661}");
    reveal_strlit("\u{11662}");
    reveal_strlit("\u{11663}");
    reveal_strlit("\u{E23F}");
    reveal_strlit("\u{E240}");
    reveal_strlit("\u{E241}");
    reveal_strlit("\u{E242}");
    assert("\u{E23F}"@ =~= seq!['\u{E23F}']);
    assert("\u{E240}"@ =~= seq!['\u{E240}']);
    assert("\u{E241}"@ =~= seq!['\u{E241}']);
    assert("\u{E242}"@ =~= seq!['\u{E242}']);
    assert("\u{11660}"@ =~= seq!['\u{11660}']);
    assert("\u{11661}"@ =~= seq!['\u{11661}']);
    assert("\u{11662}"@ =~= seq!['\u{11662}']);
    assert("\u{11663}"@ =~= seq!['\u{11663}']);
    assert("\u{11661}"@[0] != "\u{11660}"@[0]);
    assert("\u{11662}"@[0] != "\u{11660}"@[0]);
    assert("\u{11662}"@[0] != "\u{11661}"@[0]);
    assert("\u{11663}"@[0] != "\u{11660}"@[0]);
    assert("\u{11663}"@[0] != "\u{11661}"@[0]);
    assert("\u{11663}"@[0] != "\u{11662}"@[0]);
    if c == '\u{E23F}' {
        assert(seq![c] =~= "\u{E23F}"@);
    } else if c == '\u{E240}' {
        assert(seq![c] =~= "\u{E240}"@);
    } else if c == '\u{E241}' {
        assert(seq![c] =~= "\u{E241}"@);
    } else if c == '\u{E242}' {
        assert(seq![c] =~= "\u{E242}"@);
    }
}

} // verus!
