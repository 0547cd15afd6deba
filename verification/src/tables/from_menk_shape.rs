//! The MenkShape -> ZVVNMOD mapper.
use vstd::prelude::*;

verus! {

/// MenkShape locate key (padded with U+0020 on each side whose neighbour is not a letter) to ZVVNMOD text.
pub const FROM_MENK_SHAPE: [(&'static str, &'static str); 46] = [
    ("\u{0020}\u{E234}\u{0020}", "\u{1800}"),
    ("\u{0020}\u{E235}\u{0020}", "\u{1801}"),
    ("\u{0020}\u{E236}\u{0020}", "\u{1802}"),
    ("\u{0020}\u{E237}\u{0020}", "\u{1803}"),
    ("\u{0020}\u{E238}\u{0020}", "\u{1804}"),
    ("\u{0020}\u{E239}\u{0020}", "\u{1805}"),
    ("\u{0020}\u{E23A}\u{0020}", "\u{1806}"),
    ("\u{0020}\u{E23B}\u{0020}", "\u{1807}"),
    ("\u{0020}\u{E23C}\u{0020}", "\u{1808}"),
    ("\u{0020}\u{E23D}\u{0020}", "\u{1809}"),
    ("\u{0020}\u{E23E}\u{0020}", "\u{180A}"),
    ("\u{0020}\u{E23F}\u{0020}", "\u{11660}"),
    ("\u{0020}\u{E240}\u{0020}", "\u{11661}"),
    ("\u{0020}\u{E241}\u{0020}", "\u{11662}"),
    ("\u{0020}\u{E242}\u{0020}", "\u{11663}"),
    ("\u{0020}\u{E243}\u{0020}", "\u{00B7}"),
    ("\u{0020}\u{E244}\u{0020}", "\u{1810}"),
    ("\u{0020}\u{E245}\u{0020}", "\u{1811}"),
    ("\u{0020}\u{E246}\u{0020}", "\u{1812}"),
    ("\u{0020}\u{E247}\u{0020}", "\u{1813}"),
    ("\u{0020}\u{E248}\u{0020}", "\u{1814}"),
    ("\u{0020}\u{E249}\u{0020}", "\u{1815}"),
    ("\u{0020}\u{E24A}\u{0020}", "\u{1816}"),
    ("\u{0020}\u{E24B}\u{0020}", "\u{1817}"),
    ("\u{0020}\u{E24C}\u{0020}", "\u{1818}"),
    ("\u{0020}\u{E24D}\u{0020}", "\u{1819}"),
    ("\u{0020}\u{E24E}\u{0020}", "\u{2048}"),
    ("\u{0020}\u{E24F}\u{0020}", "\u{2049}"),
    ("\u{0020}\u{E250}\u{0020}", "\u{0021}"),
    ("\u{0020}\u{E251}\u{0020}", "\u{003F}"),
    ("\u{0020}\u{E252}\u{0020}", "\u{003B}"),
    ("\u{0020}\u{E253}\u{0020}", "\u{0028}"),
    ("\u{0020}\u{E254}\u{0020}", "\u{0029}"),
    ("\u{0020}\u{E255}\u{0020}", "\u{3008}"),
    ("\u{0020}\u{E256}\u{0020}", "\u{3009}"),
    ("\u{0020}\u{E257}\u{0020}", "\u{3014}"),
    ("\u{0020}\u{E258}\u{0020}", "\u{3015}"),
    ("\u{0020}\u{E259}\u{0020}", "\u{300A}"),
    ("\u{0020}\u{E25A}\u{0020}", "\u{300B}"),
    ("\u{0020}\u{E25B}\u{0020}", "\u{300E}"),
    ("\u{0020}\u{E25C}\u{0020}", "\u{300F}"),
    ("\u{0020}\u{E25D}\u{0020}", "\u{002C}"),
    ("\u{0020}\u{E25E}\u{0020}", "\u{00D7}"),
    ("\u{0020}\u{E25F}\u{0020}", "\u{203B}"),
    ("\u{0020}\u{E260}\u{0020}", "\u{002D}"),
    ("\u{0020}\u{E261}\u{0020}", "\u{007C}"),
];

} // verus!
