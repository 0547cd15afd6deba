//! Code-point sets of the ZVVNMOD hub.
use vstd::prelude::*;

verus! {

/// ZVVNMOD glyph codes, the legacy controls U+E140..=U+E144 included.
pub const ZVVNMOD_CODES: [char; 24] = ['\u{E000}', '\u{E001}', '\u{E005}', '\u{E006}', '\u{E008}', '\u{E00C}', '\u{E00D}', '\u{E011}', '\u{E031}', '\u{E03A}', '\u{E03B}', '\u{E03D}', '\u{E03E}', '\u{E042}', '\u{E043}', '\u{E04D}', '\u{E083}', '\u{E09C}', '\u{E0D0}', '\u{E140}', '\u{E141}', '\u{E142}', '\u{E143}', '\u{E144}'];

/// ZVVNMOD codes that end a letter with a tail.
pub const ZVVNMOD_TAIL_CODES: [char; 2] = ['\u{E00C}', '\u{E0D0}'];

/// The punctuation, digits and nirugu the hub carries as Unicode scalars.
pub const ZVVNMOD_PUNCTUATIONS: [char; 42] = ['\u{0021}', '\u{0028}', '\u{0029}', '\u{002C}', '\u{002D}', '\u{003B}', '\u{003F}', '\u{007C}', '\u{00B7}', '\u{00D7}', '\u{1800}', '\u{1801}', '\u{1802}', '\u{1803}', '\u{1804}', '\u{1805}', '\u{1806}', '\u{1807}', '\u{1808}', '\u{1809}', '\u{180A}', '\u{1810}', '\u{1811}', '\u{1812}', '\u{1813}', '\u{1814}', '\u{1815}', '\u{1816}', '\u{1817}', '\u{1818}', '\u{1819}', '\u{203B}', '\u{2048}', '\u{2049}', '\u{3008}', '\u{3009}', '\u{300A}', '\u{300B}', '\u{300E}', '\u{300F}', '\u{3014}', '\u{3015}'];

/// The punctuation the historical Z52 rule wrote with Z52 code positions.
pub const TO_Z52_PUNCTUATIONS: [char; 4] = ['\u{0021}', '\u{003F}', '\u{2048}', '\u{2049}'];

} // verus!
