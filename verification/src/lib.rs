//! Charset detection engine: table-driven byte-class state machines,
//! statistical distribution and sequence-likelihood analyzers, a family of
//! per-encoding detectors, and an orchestrator that combines their verdicts.
//!
//! Confidence scores are exact fixed-point values in parts per million
//! (1_000_000 stands for certainty), so every formula is integer arithmetic
//! with floor division.

use vstd::prelude::*;

mod chardistribution;
mod charsetprober;
mod codingstatemachine;
mod enums;
mod escprober;
mod escsm;
mod hebrewprober;
mod jpcntx;
mod langturkishmodel;
mod latin1prober;
mod mbcharsetprober;
mod prober;
mod sbcharsetprober;
mod sjisprober;
mod universaldetector;
mod utf8prober;

pub use charsetprober::filter_high_byte_only;
pub use charsetprober::filter_international_words;
pub use charsetprober::filter_with_english_letters;
pub use chardistribution::CharDistributionAnalysis;
pub use chardistribution::OrderScheme;
pub use chardistribution::order_of;
pub use codingstatemachine::CodingStateMachine;
pub use codingstatemachine::StateMachineModel;
pub use escprober::EscCharsetProber;
pub use escsm::fallback_sm_model;
pub use escsm::hz_sm_model;
pub use escsm::iso2022cn_sm_model;
pub use escsm::iso2022jp_sm_model;
pub use escsm::iso2022kr_sm_model;
pub use enums::InputState;
pub use hebrewprober::HebrewProber;
pub use jpcntx::ContextModel;
pub use jpcntx::JapaneseContextAnalysis;
pub use langturkishmodel::fallback_sb_model;
pub use langturkishmodel::latin5_turkish_model;
pub use latin1prober::Latin1Prober;
pub use mbcharsetprober::MultiByteCharsetProber;
pub use prober::Prober;
pub use sbcharsetprober::SBStateMachineModel;
pub use sbcharsetprober::SingleByteCharsetProber;
pub use sjisprober::SJISProber;
pub use universaldetector::UniversalDetector;
pub use universaldetector::charset2encoding;
pub use universaldetector::detect;
pub use utf8prober::UTF8Prober;
pub use enums::ProbingState;

verus! {

/// One million: the fixed-point denominator of every confidence value.
pub const CONF_ONE: u32 = 1000000;

/// Ceiling that clamps a computed confidence: 0.99.
pub const CONF_SURE_YES: u32 = 990000;

/// Floor reported when there is not enough evidence: 0.01.
pub const CONF_SURE_NO: u32 = 10000;

/// A detector whose confidence exceeds this mid-stream declares FoundIt
/// early: 0.95.
pub const CONF_POSITIVE_SHORTCUT: u32 = 950000;

/// A single-byte detector whose confidence falls below this with enough data
/// declares NotMe early: 0.05.
pub const CONF_NEGATIVE_SHORTCUT: u32 = 50000;

/// The orchestrator adopts the best detector only above this confidence: 0.2.
pub const CONF_MINIMUM_ADOPT: u32 = 200000;

} // verus!
