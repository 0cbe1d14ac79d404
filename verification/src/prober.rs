//! The detector polymorphism boundary: one tagged type over every detector
//! variant, satisfying the uniform five-operation contract (reset, feed,
//! charset, confidence, language, state) that the orchestrator consumes.

use vstd::prelude::*;

use crate::chardistribution::CharDistributionAnalysis;
use crate::chardistribution::spec_distribution_confidence;
use crate::codingstatemachine::CodingStateMachine;
use crate::enums::MACHINE_START;
use crate::enums::ProbingState;
use crate::hebrewprober::HebrewProber;
use crate::hebrewprober::spec_hebrew_charset;
use crate::hebrewprober::spec_hebrew_get_state;
use crate::jpcntx::CTX_NO_ORDER;
use crate::jpcntx::JapaneseContextAnalysis;
use crate::latin1prober::Latin1Prober;
use crate::latin1prober::LATIN1_CLASS_OTH;
use crate::latin1prober::spec_latin1_confidence;
use crate::mbcharsetprober::MultiByteCharsetProber;
use crate::sbcharsetprober::NO_PREVIOUS_ORDER;
use crate::sbcharsetprober::SingleByteCharsetProber;
use crate::sjisprober::SJISProber;
use crate::sjisprober::spec_sjis_confidence;
use crate::utf8prober::UTF8Prober;
use crate::utf8prober::spec_utf8_confidence;

verus! {

/// One detector of any variant. The orchestrator holds a homogeneous
/// collection of this type and never needs the concrete variant identity.
pub enum Prober {
    /// A generic multi-byte detector.
    MultiByte(MultiByteCharsetProber),
    /// A context-aware multi-byte detector.
    ContextMultiByte(SJISProber),
    /// A single-byte detector.
    SingleByte(SingleByteCharsetProber),
    /// The dual-order Hebrew detector.
    Hebrew(HebrewProber),
    /// The Latin-1 class-bigram detector.
    Latin1(Latin1Prober),
    /// The UTF-8 detector.
    Utf8(UTF8Prober),
}

/// Well-formedness of the wrapped detector.
pub open spec fn spec_prober_wf(p: Prober) -> bool {
    match p {
        Prober::MultiByte(d) => d.wf(),
        Prober::ContextMultiByte(d) => d.wf(),
        Prober::SingleByte(d) => d.wf(),
        Prober::Hebrew(d) => d.wf(),
        Prober::Latin1(d) => d.wf(),
        Prober::Utf8(d) => d.wf(),
    }
}

/// The wrapped detector after one feed call.
pub open spec fn spec_prober_feed(p: Prober, bytes: Seq<u8>) -> Prober {
    match p {
        Prober::MultiByte(d) => Prober::MultiByte(d.spec_feed(bytes)),
        Prober::ContextMultiByte(d) => Prober::ContextMultiByte(d.spec_feed(bytes)),
        Prober::SingleByte(d) => Prober::SingleByte(d.spec_feed(bytes)),
        Prober::Hebrew(d) => Prober::Hebrew(d.spec_feed(bytes)),
        Prober::Latin1(d) => Prober::Latin1(d.spec_feed(bytes)),
        Prober::Utf8(d) => Prober::Utf8(d.spec_feed(bytes)),
    }
}

/// The verdict a feed call reports.
pub open spec fn spec_prober_feed_result(p: Prober, bytes: Seq<u8>) -> ProbingState {
    match p {
        Prober::Hebrew(d) => if spec_hebrew_get_state(d) == ProbingState::NotMe {
            ProbingState::NotMe
        } else {
            d.spec_feed(bytes).m_state
        },
        _ => spec_prober_state(spec_prober_feed(p, bytes)),
    }
}

/// The current verdict of the wrapped detector.
pub open spec fn spec_prober_state(p: Prober) -> ProbingState {
    match p {
        Prober::MultiByte(d) => d.m_state,
        Prober::ContextMultiByte(d) => d.m_base.m_state,
        Prober::SingleByte(d) => d.m_state,
        Prober::Hebrew(d) => spec_hebrew_get_state(d),
        Prober::Latin1(d) => d.m_state,
        Prober::Utf8(d) => d.m_state,
    }
}

/// The charset name the wrapped detector reports.
pub open spec fn spec_prober_charset(p: Prober) -> Seq<char> {
    match p {
        Prober::MultiByte(d) => d.m_charset@,
        Prober::ContextMultiByte(d) => d.m_context_analyzer.model.charset_name@,
        Prober::SingleByte(d) => d.m_model.charset_name@,
        Prober::Hebrew(d) => spec_hebrew_charset(d),
        Prober::Latin1(d) => "ISO-8859-1"@,
        Prober::Utf8(d) => "utf-8"@,
    }
}

/// The confidence the wrapped detector reports.
pub open spec fn spec_prober_confidence(p: Prober) -> u32 {
    match p {
        Prober::MultiByte(d) => spec_distribution_confidence(
            d.m_distribution_analyzer.m_total_chars,
            d.m_distribution_analyzer.m_freq_chars,
            d.m_distribution_analyzer.m_ratio_num,
            d.m_distribution_analyzer.m_ratio_den,
        ),
        Prober::ContextMultiByte(d) => spec_sjis_confidence(d),
        Prober::SingleByte(d) => d.spec_confidence(),
        Prober::Hebrew(d) => if d.m_logical_prober.spec_confidence()
            > d.m_visual_prober.spec_confidence() {
            d.m_logical_prober.spec_confidence()
        } else {
            d.m_visual_prober.spec_confidence()
        },
        Prober::Latin1(d) => spec_latin1_confidence(
            d.m_state,
            d.m_freq_counter1,
            d.m_freq_counter2,
            d.m_freq_counter3,
            d.m_freq_counter1 as int + d.m_freq_counter2 as int + d.m_freq_counter3 as int,
        ),
        Prober::Utf8(d) => spec_utf8_confidence(d.m_num_mb_chars),
    }
}

/// The language label the wrapped detector reports.
pub open spec fn spec_prober_language(p: Prober) -> Seq<char> {
    match p {
        Prober::MultiByte(d) => d.m_language@,
        Prober::ContextMultiByte(d) => d.m_base.m_language@,
        Prober::SingleByte(d) => d.m_model.language@,
        Prober::Hebrew(d) => "Hebrew"@,
        Prober::Latin1(d) => ""@,
        Prober::Utf8(d) => ""@,
    }
}

/// The wrapped detector returned to its just-constructed state.
pub open spec fn spec_prober_reset(p: Prober) -> Prober {
    match p {
        Prober::MultiByte(d) => Prober::MultiByte(
            MultiByteCharsetProber {
                m_state: ProbingState::Detecting,
                m_coding_sm: CodingStateMachine { m_curr_state: MACHINE_START, ..d.m_coding_sm },
                m_distribution_analyzer: CharDistributionAnalysis {
                    m_total_chars: 0u32,
                    m_freq_chars: 0u32,
                    ..d.m_distribution_analyzer
                },
                m_last_char_0: 0u8,
                m_last_char_1: 0u8,
                ..d
            },
        ),
        Prober::ContextMultiByte(d) => Prober::ContextMultiByte(
            SJISProber {
                m_base: MultiByteCharsetProber {
                    m_state: ProbingState::Detecting,
                    m_coding_sm: CodingStateMachine {
                        m_curr_state: MACHINE_START,
                        ..d.m_base.m_coding_sm
                    },
                    m_distribution_analyzer: CharDistributionAnalysis {
                        m_total_chars: 0u32,
                        m_freq_chars: 0u32,
                        ..d.m_base.m_distribution_analyzer
                    },
                    m_last_char_0: 0u8,
                    m_last_char_1: 0u8,
                    ..d.m_base
                },
                m_context_analyzer: JapaneseContextAnalysis {
                    m_total_rel: 0u32,
                    m_rel_sample0: 0u32,
                    m_rel_sample1: 0u32,
                    m_rel_sample2: 0u32,
                    m_rel_sample3: 0u32,
                    m_rel_sample4: 0u32,
                    m_rel_sample5: 0u32,
                    m_last_char_order: CTX_NO_ORDER,
                    m_done: false,
                    ..d.m_context_analyzer
                },
            },
        ),
        Prober::SingleByte(d) => Prober::SingleByte(spec_sb_reset(d)),
        Prober::Hebrew(d) => Prober::Hebrew(
            HebrewProber {
                m_final_char_logical_score: 0u32,
                m_final_char_visual_score: 0u32,
                m_prev: 0x20u8,
                m_before_prev: 0x20u8,
                m_logical_prober: spec_sb_reset(d.m_logical_prober),
                m_visual_prober: spec_sb_reset(d.m_visual_prober),
                m_state: ProbingState::Detecting,
            },
        ),
        Prober::Latin1(d) => Prober::Latin1(
            Latin1Prober {
                m_state: ProbingState::Detecting,
                m_last_char_class: LATIN1_CLASS_OTH,
                m_freq_counter1: 0u32,
                m_freq_counter2: 0u32,
                m_freq_counter3: 0u32,
                ..d
            },
        ),
        Prober::Utf8(d) => Prober::Utf8(
            UTF8Prober {
                m_state: ProbingState::Detecting,
                m_coding_sm: CodingStateMachine { m_curr_state: MACHINE_START, ..d.m_coding_sm },
                m_num_mb_chars: 0u32,
            },
        ),
    }
}

/// A single-byte detector session returned to its just-constructed state.
pub open spec fn spec_sb_reset(d: SingleByteCharsetProber) -> SingleByteCharsetProber {
    SingleByteCharsetProber {
        m_state: ProbingState::Detecting,
        m_last_order: NO_PREVIOUS_ORDER,
        m_seq_negative: 0u32,
        m_seq_unlikely: 0u32,
        m_seq_likely: 0u32,
        m_seq_positive: 0u32,
        m_total_seqs: 0u32,
        m_total_char: 0u32,
        m_freq_char: 0u32,
        ..d
    }
}

impl Prober {
    /// Well-formedness of the wrapped detector.
    pub open spec fn wf(&self) -> bool {
        spec_prober_wf(*self)
    }

    /// Returns the wrapped detector to its just-constructed state.
    pub fn reset(&mut self)
        requires
            old(self).wf(),
        ensures
            final(self).wf(),
            *final(self) == spec_prober_reset(*old(self)),
    {
        match self {
            Prober::MultiByte(d) => d.reset(),
            Prober::ContextMultiByte(d) => d.reset(),
            Prober::SingleByte(d) => d.reset(),
            Prober::Hebrew(d) => d.reset(),
            Prober::Latin1(d) => d.reset(),
            Prober::Utf8(d) => d.reset(),
        }
    }

    /// Scans one buffer with the wrapped detector and reports its verdict.
    pub fn feed(&mut self, byte_str: &[u8]) -> (r: ProbingState)
        requires
            old(self).wf(),
        ensures
            final(self).wf(),
            *final(self) == spec_prober_feed(*old(self), byte_str@),
            r == spec_prober_feed_result(*old(self), byte_str@),
    {
        match self {
            Prober::MultiByte(d) => d.feed(byte_str),
            Prober::ContextMultiByte(d) => d.feed(byte_str),
            Prober::SingleByte(d) => d.feed(byte_str),
            Prober::Hebrew(d) => d.feed(byte_str),
            Prober::Latin1(d) => d.feed(byte_str),
            Prober::Utf8(d) => d.feed(byte_str),
        }
    }

    /// The charset name the wrapped detector reports.
    pub fn get_charset(&self) -> (r: String)
        requires
            self.wf(),
        ensures
            r@ == spec_prober_charset(*self),
    {
        match self {
            Prober::MultiByte(d) => d.get_charset(),
            Prober::ContextMultiByte(d) => d.get_charset(),
            Prober::SingleByte(d) => d.get_charset(),
            Prober::Hebrew(d) => d.get_charset(),
            Prober::Latin1(d) => d.get_charset(),
            Prober::Utf8(d) => d.get_charset(),
        }
    }

    /// The confidence the wrapped detector reports.
    pub fn get_confidence(&self) -> (r: u32)
        requires
            self.wf(),
        ensures
            r == spec_prober_confidence(*self),
    {
        match self {
            Prober::MultiByte(d) => d.get_confidence(),
            Prober::ContextMultiByte(d) => d.get_confidence(),
            Prober::SingleByte(d) => d.get_confidence(),
            Prober::Hebrew(d) => d.get_confidence(),
            Prober::Latin1(d) => d.get_confidence(),
            Prober::Utf8(d) => d.get_confidence(),
        }
    }

    /// The language label the wrapped detector reports.
    pub fn get_language(&self) -> (r: String)
        requires
            self.wf(),
        ensures
            r@ == spec_prober_language(*self),
    {
        match self {
            Prober::MultiByte(d) => d.get_language(),
            Prober::ContextMultiByte(d) => d.get_language(),
            Prober::SingleByte(d) => d.get_language(),
            Prober::Hebrew(d) => d.get_language(),
            Prober::Latin1(d) => d.get_language(),
            Prober::Utf8(d) => d.get_language(),
        }
    }

    /// The current verdict of the wrapped detector.
    pub fn get_state(&self) -> (r: ProbingState)
        requires
            self.wf(),
        ensures
            r == spec_prober_state(*self),
    {
        match self {
            Prober::MultiByte(d) => d.get_state(),
            Prober::ContextMultiByte(d) => d.get_state(),
            Prober::SingleByte(d) => d.get_state(),
            Prober::Hebrew(d) => d.get_state(),
            Prober::Latin1(d) => d.get_state(),
            Prober::Utf8(d) => d.get_state(),
        }
    }
}

} // verus!
