//! The Z52 -> ZVVNMOD mapper.
use vstd::prelude::*;

verus! {

/// Z52 locate key (padded with U+0020 on each side whose neighbour is not a letter) to ZVVNMOD text.
pub const FROM_Z52: [(&'static str, &'static str); 22] = [
    ("\u{0020}\u{184F}", "\u{00B7}"),
    ("\u{0020}\u{184F}\u{0020}", "\u{00B7}"),
    ("\u{0020}\u{1850}\u{0020}", "\u{2048}"),
    ("\u{0020}\u{1851}\u{0020}", "\u{2049}"),
    ("\u{0020}\u{1852}\u{0020}", "\u{0021}"),
    ("\u{0020}\u{1853}\u{0020}", "\u{003F}"),
    ("\u{0020}\u{1854}\u{0020}", "\u{003B}"),
    ("\u{0020}\u{1855}\u{0020}", "\u{0028}"),
    ("\u{0020}\u{1856}\u{0020}", "\u{0029}"),
    ("\u{0020}\u{1857}\u{0020}", "\u{3008}"),
    ("\u{0020}\u{1858}\u{0020}", "\u{3009}"),
    ("\u{0020}\u{1859}\u{0020}", "\u{3014}"),
    ("\u{0020}\u{185A}\u{0020}", "\u{3015}"),
    ("\u{0020}\u{185B}\u{0020}", "\u{300A}"),
    ("\u{0020}\u{185C}\u{0020}", "\u{300B}"),
    ("\u{0020}\u{185D}\u{0020}", "\u{300E}"),
    ("\u{0020}\u{185E}\u{0020}", "\u{300F}"),
    ("\u{0020}\u{185F}\u{0020}", "\u{002C}"),
    ("\u{0020}\u{1860}\u{0020}", "\u{00D7}"),
    ("\u{0020}\u{1861}\u{0020}", "\u{203B}"),
    ("\u{0020}\u{1862}\u{0020}", "\u{002D}"),
    ("\u{0020}\u{1863}\u{0020}", "\u{007C}"),
];

} // verus!
