//! The shape subsystem: MenkShape and Z52 <-> the ZVVNMOD hub.

pub mod menk_from;
pub mod menk_to;
pub mod punctuation_gap;
pub mod rule;
pub mod softbank_emoji;
pub mod translator;
pub mod z52_from;
pub mod z52_to;
