//! Code-point sets of the MenkShape encoding.
use vstd::prelude::*;

verus! {

/// MenkShape private-use code points inside the shape ranges that the encoding does not use.
pub const MENK_SHAPE_NOT_SUPPORT: [char; 0] = [];

} // verus!
