//! The ZVVNMOD -> MenkShape mapper.
use vstd::prelude::*;

verus! {

/// ZVVNMOD key to MenkShape text; keys unpadded.
pub const TO_MENK_SHAPE: [(&'static str, &'static str); 42] = [
    ("\u{0021}", "\u{E250}"),
    ("\u{0028}", "\u{E253}"),
    ("\u{0029}", "\u{E254}"),
    ("\u{002C}", "\u{E25D}"),
    ("\u{002D}", "\u{E260}"),
    ("\u{003B}", "\u{E252}"),
    ("\u{003F}", "\u{E251}"),
    ("\u{007C}", "\u{E261}"),
    ("\u{00B7}", "\u{E243}"),
    ("\u{00D7}", "\u{E25E}"),
    ("\u{1800}", "\u{E234}"),
    ("\u{1801}", "\u{E235}"),
    ("\u{1802}", "\u{E236}"),
    ("\u{1803}", "\u{E237}"),
    ("\u{1804}", "\u{E238}"),
    ("\u{1805}", "\u{E239}"),
    ("\u{1806}", "\u{E23A}"),
    ("\u{1807}", "\u{E23B}"),
    ("\u{1808}", "\u{E23C}"),
    ("\u{1809}", "\u{E23D}"),
    ("\u{180A}", "\u{E23E}"),
    ("\u{1810}", "\u{E244}"),
    ("\u{1811}", "\u{E245}"),
    ("\u{1812}", "\u{E246}"),
    ("\u{1813}", "\u{E247}"),
    ("\u{1814}", "\u{E248}"),
    ("\u{1815}", "\u{E249}"),
    ("\u{1816}", "\u{E24A}"),
    ("\u{1817}", "\u{E24B}"),
    ("\u{1818}", "\u{E24C}"),
    ("\u{1819}", "\u{E24D}"),
    ("\u{203B}", "\u{E25F}"),
    ("\u{2048}", "\u{E24E}"),
    ("\u{2049}", "\u{E24F}"),
    ("\u{3008}", "\u{E255}"),
    ("\u{3009}", "\u{E256}"),
    ("\u{300A}", "\u{E259}"),
    ("\u{300B}", "\u{E25A}"),
    ("\u{300E}", "\u{E25B}"),
    ("\u{300F}", "\u{E25C}"),
    ("\u{3014}", "\u{E257}"),
    ("\u{3015}", "\u{E258}"),
];

} // verus!
