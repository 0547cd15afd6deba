//! Code-point sets of the Z52 encoding.
use vstd::prelude::*;

verus! {

/// Z52 glyph code points.
pub const Z52_CODES: [char; 15] = ['\u{1865}', '\u{1866}', '\u{1867}', '\u{186A}', '\u{186B}', '\u{186C}', '\u{186D}', '\u{1871}', '\u{1873}', '\u{188A}', '\u{188B}', '\u{188C}', '\u{188E}', '\u{1890}', '\u{18AA}'];

/// Z52's own punctuation positions, U+184F..=U+1863.
pub const Z52_CODE_PUNCTUATIONS: [char; 21] = ['\u{184F}', '\u{1850}', '\u{1851}', '\u{1852}', '\u{1853}', '\u{1854}', '\u{1855}', '\u{1856}', '\u{1857}', '\u{1858}', '\u{1859}', '\u{185A}', '\u{185B}', '\u{185C}', '\u{185D}', '\u{185E}', '\u{185F}', '\u{1860}', '\u{1861}', '\u{1862}', '\u{1863}'];

} // verus!
