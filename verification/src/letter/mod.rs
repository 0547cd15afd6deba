//! The letter subsystem: Delehi and MenkLetter <-> the ZVVNMOD hub.
//!
//! Reading a letter encoding groups the letters of a word into fragments, each with the vowel
//! harmony its letters imply; writing one groups the hub codes of a word and lets the rule spell
//! the whole word at once.

pub mod delehi;
pub mod from_translator;
pub mod menk;
pub mod rule;
pub mod to_translator;
