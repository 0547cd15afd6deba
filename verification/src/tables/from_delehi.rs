//! The Delehi -> ZVVNMOD mappers.
use vstd::prelude::*;

verus! {

/// Delehi locate key to ZVVNMOD text, whatever the word's nature.
pub const FROM_DELEHI: [(&'static str, &'static str); 0] = [];

/// Delehi locate key to ZVVNMOD text in a masculine word.
pub const FROM_DELEHI_CHAGH: [(&'static str, &'static str); 0] = [];

/// Delehi locate key to ZVVNMOD text in a feminine word.
pub const FROM_DELEHI_HUNDII: [(&'static str, &'static str); 0] = [];

/// Delehi locate key to ZVVNMOD text in a neutral word.
pub const FROM_DELEHI_SAARMAG: [(&'static str, &'static str); 0] = [];

} // verus!
