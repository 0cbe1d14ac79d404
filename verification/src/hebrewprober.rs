//! Hebrew detector: two single-byte detectors sharing one model with
//! opposite direction flags (logical order vs visual order), plus a
//! final-letter position heuristic run over the raw high-byte structure of
//! the stream with a 2-byte lookback window.

use vstd::prelude::*;

use crate::CONF_SURE_YES;
use crate::charsetprober::filter_high_byte_only;
use crate::charsetprober::spec_filter_high_byte_only;
use crate::chardistribution::sat_inc;
use crate::enums::ProbingState;
use crate::sbcharsetprober::SBStateMachineModel;
use crate::sbcharsetprober::SingleByteCharsetProber;

verus! {

/// Final-form kaf.
pub const FINAL_KAF: u8 = 0xEA;

/// Normal-form kaf.
pub const NORMAL_KAF: u8 = 0xEB;

/// Final-form mem.
pub const FINAL_MEM: u8 = 0xED;

/// Normal-form mem.
pub const NORMAL_MEM: u8 = 0xEE;

/// Final-form nun.
pub const FINAL_NUN: u8 = 0xEF;

/// Normal-form nun.
pub const NORMAL_NUN: u8 = 0xF0;

/// Final-form pe.
pub const FINAL_PE: u8 = 0xF3;

/// Normal-form pe.
pub const NORMAL_PE: u8 = 0xF4;

/// Final-form tsadi.
pub const FINAL_TSADI: u8 = 0xF5;

/// Normal-form tsadi.
pub const NORMAL_TSADI: u8 = 0xF6;

/// The final-letter score asymmetry that settles the order by itself.
pub const MIN_FINAL_CHAR_DISTANCE: u32 = 5;

/// The sub-detector confidence gap that settles the order: 0.01.
pub const MIN_MODEL_DISTANCE: u32 = 10000;

/// A final-form consonant: one that belongs at the end of a word.
pub open spec fn spec_is_final(c: u8) -> bool {
    c == FINAL_KAF || c == FINAL_MEM || c == FINAL_NUN || c == FINAL_PE || c == FINAL_TSADI
}

/// A normal-form consonant of a letter that has a distinct final form; tsadi
/// is deliberately left out, as its normal form does appear word-finally.
pub open spec fn spec_is_non_final(c: u8) -> bool {
    c == NORMAL_KAF || c == NORMAL_MEM || c == NORMAL_NUN || c == NORMAL_PE
}

/// A Hebrew detector session.
pub struct HebrewProber {
    /// Words ending in a final-form consonant seen so far: evidence of
    /// logical order.
    pub m_final_char_logical_score: u32,
    /// Words ending in a normal-form consonant, or beginning in a final
    /// form, seen so far: evidence of visual order.
    pub m_final_char_visual_score: u32,
    /// The previous character of the high-byte-filtered stream.
    pub m_prev: u8,
    /// The character before the previous one.
    pub m_before_prev: u8,
    /// The logical-order sub-detector.
    pub m_logical_prober: SingleByteCharsetProber,
    /// The visual-order sub-detector.
    pub m_visual_prober: SingleByteCharsetProber,
    /// The aggregated verdict set by the last feed call.
    pub m_state: ProbingState,
}

/// The aggregation that `get_state` reports: prefer a decisively
/// non-Detecting sub-state, falling back to the visual one.
pub open spec fn spec_hebrew_get_state(s: HebrewProber) -> ProbingState {
    if s.m_logical_prober.m_state == ProbingState::NotMe {
        s.m_visual_prober.m_state
    } else if s.m_logical_prober.m_state == ProbingState::Detecting {
        if s.m_visual_prober.m_state == ProbingState::NotMe {
            s.m_logical_prober.m_state
        } else {
            s.m_visual_prober.m_state
        }
    } else {
        s.m_logical_prober.m_state
    }
}

/// One step of the final-letter heuristic on one character of the
/// high-byte-filtered stream.
pub open spec fn spec_hebrew_score_step(s: HebrewProber, cur: u8) -> HebrewProber {
    let scored = if cur == 0x20 {
        if s.m_before_prev != 0x20 {
            if spec_is_final(s.m_prev) {
                HebrewProber {
                    m_final_char_logical_score: sat_inc(s.m_final_char_logical_score),
                    ..s
                }
            } else if spec_is_non_final(s.m_prev) {
                HebrewProber { m_final_char_visual_score: sat_inc(s.m_final_char_visual_score), ..s }
            } else {
                s
            }
        } else {
            s
        }
    } else {
        if s.m_before_prev == 0x20 && spec_is_final(s.m_prev) && cur != 0x20 {
            HebrewProber { m_final_char_visual_score: sat_inc(s.m_final_char_visual_score), ..s }
        } else {
            s
        }
    };
    HebrewProber { m_before_prev: scored.m_prev, m_prev: cur, ..scored }
}

/// The heuristic state after the filtered stream's first `i` characters.
pub open spec fn spec_hebrew_score_run(s: HebrewProber, bytes: Seq<u8>, i: nat) -> HebrewProber
    decreases bytes.len() - i,
{
    if i >= bytes.len() {
        s
    } else {
        spec_hebrew_score_run(spec_hebrew_score_step(s, bytes[i as int]), bytes, i + 1)
    }
}

/// The final-letter heuristic only moves the scores and the lookback
/// window; the sub-detectors and the verdict pass through it untouched.
pub proof fn lemma_hebrew_score_run_frame(s: HebrewProber, bytes: Seq<u8>, i: nat)
    ensures
        spec_hebrew_score_run(s, bytes, i).m_logical_prober == s.m_logical_prober,
        spec_hebrew_score_run(s, bytes, i).m_visual_prober == s.m_visual_prober,
        spec_hebrew_score_run(s, bytes, i).m_state == s.m_state,
    decreases bytes.len() - i,
{
    if i < bytes.len() {
        lemma_hebrew_score_run_frame(spec_hebrew_score_step(s, bytes[i as int]), bytes, i + 1);
    }
}

/// The final-letter heuristic is a fold with a 2-byte lookback carried in
/// the session, so it picks up where it left off.
proof fn lemma_hebrew_score_run_shift(s: HebrewProber, a: Seq<u8>, b: Seq<u8>, k: nat)
    requires
        k <= b.len(),
    ensures
        spec_hebrew_score_run(s, a + b, a.len() + k) == spec_hebrew_score_run(s, b, k),
    decreases b.len() - k,
{
    assert((a + b).len() == a.len() + b.len());
    if k < b.len() {
        assert((a + b)[a.len() + k as int] == b[k as int]);
        lemma_hebrew_score_run_shift(
            spec_hebrew_score_step(s, b[k as int]),
            a,
            b,
            k + 1,
        );
    }
}

/// The final-letter heuristic composes over concatenation.
proof fn lemma_hebrew_score_run_split(s: HebrewProber, a: Seq<u8>, b: Seq<u8>, i: nat)
    requires
        i <= a.len(),
    ensures
        spec_hebrew_score_run(s, a + b, i) == spec_hebrew_score_run(
            spec_hebrew_score_run(s, a, i),
            b,
            0,
        ),
    decreases a.len() - i,
{
    if i >= a.len() {
        lemma_hebrew_score_run_shift(s, a, b, 0);
    } else {
        assert((a + b)[i as int] == a[i as int]);
        lemma_hebrew_score_run_split(spec_hebrew_score_step(s, a[i as int]), a, b, i + 1);
    }
}

/// Split feeding, for the final-letter heuristic alone: the scores and the
/// lookback window after two chunks equal those after the concatenation.
/// (The sub-detectors do not compose in general, because their word filter
/// is applied per chunk.)
pub proof fn lemma_hebrew_scores_split(s: HebrewProber, a: Seq<u8>, b: Seq<u8>)
    ensures
        spec_hebrew_score_run(
            spec_hebrew_score_run(s, spec_filter_high_byte_only(a), 0),
            spec_filter_high_byte_only(b),
            0,
        ) == spec_hebrew_score_run(s, spec_filter_high_byte_only(a + b), 0),
{
    crate::charsetprober::lemma_filter_high_byte_only_split(a, b);
    lemma_hebrew_score_run_split(
        s,
        spec_filter_high_byte_only(a),
        spec_filter_high_byte_only(b),
        0,
    );
}

/// The charset decision: a decisive final-letter asymmetry wins outright;
/// else a decisive sub-detector confidence gap; else the sign of the
/// final-letter asymmetry, logical on a tie.
pub open spec fn spec_hebrew_charset(s: HebrewProber) -> Seq<char> {
    let finalsub = s.m_final_char_logical_score as int - s.m_final_char_visual_score as int;
    if finalsub >= MIN_FINAL_CHAR_DISTANCE as int {
        "windows-1255"@
    } else if finalsub <= -(MIN_FINAL_CHAR_DISTANCE as int) {
        "ISO-8859-8"@
    } else {
        let modelsub = s.m_logical_prober.spec_confidence() as int
            - s.m_visual_prober.spec_confidence() as int;
        if modelsub > MIN_MODEL_DISTANCE as int {
            "windows-1255"@
        } else if modelsub < -(MIN_MODEL_DISTANCE as int) {
            "ISO-8859-8"@
        } else if finalsub < 0 {
            "ISO-8859-8"@
        } else {
            "windows-1255"@
        }
    }
}

impl HebrewProber {
    /// Both sub-detectors are well formed.
    pub open spec fn wf(&self) -> bool {
        &&& self.m_logical_prober.wf()
        &&& self.m_visual_prober.wf()
    }

    /// The session after one whole feed call: a NotMe aggregate makes the
    /// call a no-op; otherwise the final-letter heuristic walks the
    /// high-byte-filtered stream, both sub-detectors are fed the raw buffer,
    /// and the aggregated verdict is recomputed.
    pub open spec fn spec_feed(self, input: Seq<u8>) -> HebrewProber {
        if spec_hebrew_get_state(self) == ProbingState::NotMe {
            self
        } else {
            let h = spec_hebrew_score_run(self, spec_filter_high_byte_only(input), 0);
            let logical = self.m_logical_prober.spec_feed(input);
            let visual = self.m_visual_prober.spec_feed(input);
            let state = if logical.m_state == ProbingState::FoundIt || visual.m_state
                == ProbingState::FoundIt {
                ProbingState::FoundIt
            } else if logical.m_state == ProbingState::NotMe && visual.m_state
                == ProbingState::NotMe {
                ProbingState::NotMe
            } else {
                ProbingState::Detecting
            };
            HebrewProber {
                m_logical_prober: logical,
                m_visual_prober: visual,
                m_state: state,
                ..h
            }
        }
    }

    /// A fresh detector: two sub-detectors over the given model, one in
    /// logical and one in visual order.
    pub fn new(model: SBStateMachineModel) -> (r: HebrewProber)
        requires
            model.wf(),
        ensures
            r.wf(),
            r.m_final_char_logical_score == 0,
            r.m_final_char_visual_score == 0,
            r.m_prev == 0x20u8,
            r.m_before_prev == 0x20u8,
            r.m_state == ProbingState::Detecting,
            r.m_logical_prober.m_state == ProbingState::Detecting,
            r.m_visual_prober.m_state == ProbingState::Detecting,
            r.m_logical_prober.m_reversed == false,
            r.m_visual_prober.m_reversed == true,
            r.m_logical_prober.m_total_seqs == 0,
            r.m_visual_prober.m_total_seqs == 0,
            r.m_logical_prober.m_model.charset_name@ == model.charset_name@,
            r.m_visual_prober.m_model == model,
    {
        let logical_model = model.duplicate();
        HebrewProber {
            m_final_char_logical_score: 0,
            m_final_char_visual_score: 0,
            m_prev: 0x20,
            m_before_prev: 0x20,
            m_logical_prober: SingleByteCharsetProber::new(logical_model, false),
            m_visual_prober: SingleByteCharsetProber::new(model, true),
            m_state: ProbingState::Detecting,
        }
    }

    /// Whether `c` is a final-form consonant.
    pub fn is_final(&self, c: u8) -> (r: bool)
        ensures
            r == spec_is_final(c),
    {
        c == FINAL_KAF || c == FINAL_MEM || c == FINAL_NUN || c == FINAL_PE || c == FINAL_TSADI
    }

    /// Whether `c` is a normal-form consonant with a distinct final form.
    pub fn is_non_final(&self, c: u8) -> (r: bool)
        ensures
            r == spec_is_non_final(c),
    {
        c == NORMAL_KAF || c == NORMAL_MEM || c == NORMAL_NUN || c == NORMAL_PE
    }

    /// Returns the session to its just-constructed state; the model is
    /// untouched.
    pub fn reset(&mut self)
        requires
            old(self).wf(),
        ensures
            final(self).wf(),
            final(self).m_final_char_logical_score == 0,
            final(self).m_final_char_visual_score == 0,
            final(self).m_prev == 0x20u8,
            final(self).m_before_prev == 0x20u8,
            final(self).m_state == ProbingState::Detecting,
            final(self).m_logical_prober == (SingleByteCharsetProber {
                m_state: ProbingState::Detecting,
                m_last_order: crate::sbcharsetprober::NO_PREVIOUS_ORDER,
                m_seq_negative: 0u32,
                m_seq_unlikely: 0u32,
                m_seq_likely: 0u32,
                m_seq_positive: 0u32,
                m_total_seqs: 0u32,
                m_total_char: 0u32,
                m_freq_char: 0u32,
                ..old(self).m_logical_prober
            }),
            final(self).m_visual_prober == (SingleByteCharsetProber {
                m_state: ProbingState::Detecting,
                m_last_order: crate::sbcharsetprober::NO_PREVIOUS_ORDER,
                m_seq_negative: 0u32,
                m_seq_unlikely: 0u32,
                m_seq_likely: 0u32,
                m_seq_positive: 0u32,
                m_total_seqs: 0u32,
                m_total_char: 0u32,
                m_freq_char: 0u32,
                ..old(self).m_visual_prober
            }),
    {
        self.m_final_char_logical_score = 0;
        self.m_final_char_visual_score = 0;
        self.m_prev = 0x20;
        self.m_before_prev = 0x20;
        self.m_logical_prober.reset();
        self.m_visual_prober.reset();
        self.m_state = ProbingState::Detecting;
    }

    /// Scans one buffer: the final-letter heuristic walks its high-byte
    /// structure, both sub-detectors consume the raw bytes, and the
    /// aggregated verdict is recomputed.
    pub fn feed(&mut self, byte_str: &[u8]) -> (r: ProbingState)
        requires
            old(self).wf(),
        ensures
            final(self).wf(),
            *final(self) == old(self).spec_feed(byte_str@),
            r == if spec_hebrew_get_state(*old(self)) == ProbingState::NotMe {
                ProbingState::NotMe
            } else {
                final(self).m_state
            },
    {
        let logical_state = self.m_logical_prober.get_state();
        let visual_state = self.m_visual_prober.get_state();
        if logical_state == ProbingState::NotMe && visual_state == ProbingState::NotMe {
            return ProbingState::NotMe;
        }
        let ghost orig = *old(self);
        proof {
            assert(spec_hebrew_get_state(orig) != ProbingState::NotMe);
        }
        let byte_str2 = filter_high_byte_only(byte_str);
        let n = byte_str2.len();
        let mut i: usize = 0;
        while i < n
            invariant
                i <= n,
                n == byte_str2@.len(),
                byte_str2@ == spec_filter_high_byte_only(byte_str@),
                self.wf(),
                spec_hebrew_score_run(orig, byte_str2@, 0) == spec_hebrew_score_run(
                    *self,
                    byte_str2@,
                    i as nat,
                ),
            decreases n - i,
        {
            let cur = byte_str2[i];
            if cur == 0x20 {
                if self.m_before_prev != 0x20 {
                    if self.is_final(self.m_prev) {
                        if self.m_final_char_logical_score < u32::MAX {
                            self.m_final_char_logical_score = self.m_final_char_logical_score + 1;
                        }
                    } else if self.is_non_final(self.m_prev) {
                        if self.m_final_char_visual_score < u32::MAX {
                            self.m_final_char_visual_score = self.m_final_char_visual_score + 1;
                        }
                    }
                }
            } else {
                if self.m_before_prev == 0x20 && self.is_final(self.m_prev) {
                    if self.m_final_char_visual_score < u32::MAX {
                        self.m_final_char_visual_score = self.m_final_char_visual_score + 1;
                    }
                }
            }
            self.m_before_prev = self.m_prev;
            self.m_prev = cur;
            i = i + 1;
        }
        proof {
            lemma_hebrew_score_run_frame(orig, byte_str2@, 0);
        }
        let s1 = self.m_logical_prober.feed(byte_str);
        let s2 = self.m_visual_prober.feed(byte_str);
        if s1 == ProbingState::FoundIt || s2 == ProbingState::FoundIt {
            self.m_state = ProbingState::FoundIt;
        } else if s1 == ProbingState::NotMe && s2 == ProbingState::NotMe {
            self.m_state = ProbingState::NotMe;
        } else {
            self.m_state = ProbingState::Detecting;
        }
        self.m_state
    }

    /// The resolved charset name. A final-letter score asymmetry of at least
    /// the minimal distance in favour of logical order always yields the
    /// logical-order name, whatever the sub-detectors' confidences; the
    /// mirror-image asymmetry always yields the visual-order name.
    pub fn get_charset(&self) -> (r: String)
        requires
            self.wf(),
        ensures
            r@ == spec_hebrew_charset(*self),
            self.m_final_char_logical_score as int - self.m_final_char_visual_score as int
                >= MIN_FINAL_CHAR_DISTANCE as int ==> r@ == "windows-1255"@,
            self.m_final_char_visual_score as int - self.m_final_char_logical_score as int
                >= MIN_FINAL_CHAR_DISTANCE as int ==> r@ == "ISO-8859-8"@,
    {
        let finalsub: i64 = (self.m_final_char_logical_score as i64) - (self.m_final_char_visual_score as i64);
        if finalsub >= MIN_FINAL_CHAR_DISTANCE as i64 {
            return logical_hebrew_name();
        }
        if finalsub <= -(MIN_FINAL_CHAR_DISTANCE as i64) {
            return visual_hebrew_name();
        }
        let c1 = self.m_logical_prober.get_confidence();
        let c2 = self.m_visual_prober.get_confidence();
        let modelsub: i64 = (c1 as i64) - (c2 as i64);
        if modelsub > MIN_MODEL_DISTANCE as i64 {
            return logical_hebrew_name();
        }
        if modelsub < -(MIN_MODEL_DISTANCE as i64) {
            return visual_hebrew_name();
        }
        if finalsub < 0 {
            visual_hebrew_name()
        } else {
            logical_hebrew_name()
        }
    }

    /// The larger of the two sub-detectors' confidences.
    pub fn get_confidence(&self) -> (r: u32)
        requires
            self.wf(),
        ensures
            r == if self.m_logical_prober.spec_confidence() > self.m_visual_prober.spec_confidence() {
                self.m_logical_prober.spec_confidence()
            } else {
                self.m_visual_prober.spec_confidence()
            },
            r <= CONF_SURE_YES,
    {
        let c1 = self.m_logical_prober.get_confidence();
        let c2 = self.m_visual_prober.get_confidence();
        if c1 > c2 {
            c1
        } else {
            c2
        }
    }

    /// The language label this detector stands for.
    pub fn get_language(&self) -> (r: String)
        ensures
            r@ == "Hebrew"@,
    {
        "Hebrew".to_owned()
    }

    /// The aggregated verdict of the two sub-detectors: NotMe only when both
    /// agree on it, preferring a decisively non-Detecting sub-state.
    pub fn get_state(&self) -> (r: ProbingState)
        ensures
            r == spec_hebrew_get_state(*self),
    {
        if self.m_logical_prober.get_state() == ProbingState::NotMe {
            self.m_visual_prober.get_state()
        } else if self.m_logical_prober.get_state() == ProbingState::Detecting {
            if self.m_visual_prober.get_state() == ProbingState::NotMe {
                self.m_logical_prober.get_state()
            } else {
                self.m_visual_prober.get_state()
            }
        } else {
            self.m_logical_prober.get_state()
        }
    }
}

/// The logical-order Hebrew charset name.
pub fn logical_hebrew_name() -> (r: String)
    ensures
        r@ == "windows-1255"@,
{
    "windows-1255".to_owned()
}

/// The visual-order Hebrew charset name.
pub fn visual_hebrew_name() -> (r: String)
    ensures
        r@ == "ISO-8859-8"@,
{
    "ISO-8859-8".to_owned()
}

} // verus!
