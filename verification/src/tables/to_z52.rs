//! The ZVVNMOD -> Z52 mapper.
use vstd::prelude::*;

verus! {

/// ZVVNMOD key to Z52 text; keys unpadded.
pub const TO_Z52: [(&'static str, &'static str); 0] = [
];

} // verus!
