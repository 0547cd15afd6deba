//! The ZVVNMOD -> Delehi mapper.
use vstd::prelude::*;

verus! {

/// ZVVNMOD key to Delehi text.
pub const TO_DELEHI: [(&'static str, &'static str); 0] = [];

} // verus!
