//! Shared enumerations and table sentinels of the detection engine.

use vstd::prelude::*;

verus! {

/// How the orchestrator has classified the input seen so far.
/// The classification only ever escalates: PureAscii -> EscAscii -> Highbyte.
#[derive(Clone, Copy, PartialEq, Eq, Structural, Debug)]
pub enum InputState {
    PureAscii,
    EscAscii,
    Highbyte,
}

/// The three-valued verdict of a single detector.
/// FoundIt and NotMe are terminal; Detecting is the only state from which
/// transitions occur.
#[derive(Clone, Copy, PartialEq, Eq, Structural, Debug)]
pub enum ProbingState {
    Detecting,
    FoundIt,
    NotMe,
}

/// State-machine state: ready for the first byte of a character.
pub const MACHINE_START: u8 = 0;

/// State-machine state: the byte sequence is invalid for this encoding.
pub const MACHINE_ERROR: u8 = 1;

/// State-machine state: the byte sequence is unambiguous proof of this
/// encoding.
pub const MACHINE_ITS_ME: u8 = 2;

/// Bigram likelihood category: illegal pair.
pub const SEQ_NEGATIVE: usize = 0;

/// Bigram likelihood category: very unlikely pair.
pub const SEQ_UNLIKELY: usize = 1;

/// Bigram likelihood category: normal pair.
pub const SEQ_LIKELY: usize = 2;

/// Bigram likelihood category: very likely pair.
pub const SEQ_POSITIVE: usize = 3;

/// Number of bigram likelihood categories.
pub const SEQ_CATEGORIES: usize = 4;

/// Character-order sentinel: control characters that usually do not appear
/// in text. Orders at or above this value do not count as characters.
pub const CAT_CONTROL: u8 = 251;

} // verus!
