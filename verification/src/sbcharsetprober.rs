//! Single-byte charset detector: a character-order map plus a bigram
//! precedence matrix over the most frequent orders, accumulating likelihood
//! category counts over consecutive byte orders.

use vstd::prelude::*;

use crate::CONF_NEGATIVE_SHORTCUT;
use crate::CONF_ONE;
use crate::CONF_POSITIVE_SHORTCUT;
use crate::CONF_SURE_NO;
use crate::CONF_SURE_YES;
use crate::chardistribution::sat_inc;
use crate::charsetprober::filter_international_words;
use crate::charsetprober::spec_filter_international_words;
use crate::enums::CAT_CONTROL;
use crate::enums::ProbingState;
use crate::enums::SEQ_LIKELY;
use crate::enums::SEQ_NEGATIVE;
use crate::enums::SEQ_POSITIVE;
use crate::enums::SEQ_UNLIKELY;

verus! {

/// Only the orders below this take part in the sequence statistics: the 64
/// most frequent characters of the charset.
pub const SAMPLE_SIZE: usize = 64;

/// A sequence total above this is enough data for an early verdict.
pub const SB_ENOUGH_REL_THRESHOLD: u32 = 1024;

/// Order value meaning "no previous character yet".
pub const NO_PREVIOUS_ORDER: u8 = 255;

/// An immutable single-byte charset model: the order map, the bigram
/// precedence matrix over the first [`SAMPLE_SIZE`] orders, the typical
/// positive-sequence ratio, the English-letter policy, and the labels.
pub struct SBStateMachineModel {
    /// Byte-to-order map, one entry per byte value; low orders are the most
    /// frequent characters.
    pub char_to_order_map: Vec<u8>,
    /// Bigram likelihood matrix over the first [`SAMPLE_SIZE`] orders,
    /// indexed `[previous * SAMPLE_SIZE + current]`; values are the sequence
    /// likelihood categories.
    pub precedence_matrix: Vec<u8>,
    /// Numerator of the typical positive-sequence ratio.
    pub ratio_num: u32,
    /// Denominator of the typical positive-sequence ratio.
    pub ratio_den: u32,
    /// Whether ASCII letters are kept verbatim instead of being filtered out
    /// around international words.
    pub keep_english_letter: bool,
    /// Charset name reported by a detector driven by this model.
    pub charset_name: String,
    /// Language label of the model.
    pub language: String,
}

/// Well-formedness of a single-byte model's tables.
pub open spec fn sb_tables_wf(
    char_to_order_map: Seq<u8>,
    precedence_matrix: Seq<u8>,
    ratio_num: u32,
    ratio_den: u32,
) -> bool {
    &&& char_to_order_map.len() == 256
    &&& precedence_matrix.len() == SAMPLE_SIZE * SAMPLE_SIZE
    &&& forall|i: int|
        0 <= i < precedence_matrix.len() ==> precedence_matrix[i] < SEQ_CATEGORIES_U8
    &&& ratio_num > 0
    &&& ratio_den > 0
}

/// The number of likelihood categories as a byte, for table validation.
pub const SEQ_CATEGORIES_U8: u8 = 4;

impl SBStateMachineModel {
    /// The model's tables are well formed.
    pub open spec fn wf(&self) -> bool {
        sb_tables_wf(self.char_to_order_map@, self.precedence_matrix@, self.ratio_num, self.ratio_den)
    }

    /// Builds a model after checking the supplied tables; returns `None`
    /// exactly when the tables are not well formed.
    pub fn new(
        char_to_order_map: Vec<u8>,
        precedence_matrix: Vec<u8>,
        ratio_num: u32,
        ratio_den: u32,
        keep_english_letter: bool,
        charset_name: String,
        language: String,
    ) -> (r: Option<SBStateMachineModel>)
        ensures
            r is Some <==> sb_tables_wf(
                char_to_order_map@,
                precedence_matrix@,
                ratio_num,
                ratio_den,
            ),
            match r {
                Some(m) => {
                    &&& m.wf()
                    &&& m.char_to_order_map@ == char_to_order_map@
                    &&& m.precedence_matrix@ == precedence_matrix@
                    &&& m.ratio_num == ratio_num
                    &&& m.ratio_den == ratio_den
                    &&& m.keep_english_letter == keep_english_letter
                    &&& m.charset_name@ == charset_name@
                    &&& m.language@ == language@
                },
                None => true,
            },
    {
        if char_to_order_map.len() != 256 || ratio_num == 0 || ratio_den == 0 {
            return None;
        }
        if precedence_matrix.len() != SAMPLE_SIZE * SAMPLE_SIZE {
            return None;
        }
        let n: usize = precedence_matrix.len();
        let mut i: usize = 0;
        while i < n
            invariant
                i <= n,
                n == precedence_matrix@.len(),
                forall|k: int| 0 <= k < i ==> precedence_matrix@[k] < SEQ_CATEGORIES_U8,
            decreases n - i,
        {
            if precedence_matrix[i] >= SEQ_CATEGORIES_U8 {
                return None;
            }
            i = i + 1;
        }
        Some(
            SBStateMachineModel {
                char_to_order_map,
                precedence_matrix,
                ratio_num,
                ratio_den,
                keep_english_letter,
                charset_name,
                language,
            },
        )
    }

    /// A field-for-field copy of this model.
    pub fn duplicate(&self) -> (r: SBStateMachineModel)
        ensures
            r.char_to_order_map@ == self.char_to_order_map@,
            r.precedence_matrix@ == self.precedence_matrix@,
            r.ratio_num == self.ratio_num,
            r.ratio_den == self.ratio_den,
            r.keep_english_letter == self.keep_english_letter,
            r.charset_name@ == self.charset_name@,
            r.language@ == self.language@,
            self.wf() ==> r.wf(),
    {
        let map2 = self.char_to_order_map.clone();
        let matrix2 = self.precedence_matrix.clone();
        proof {
            assert(map2@ =~= self.char_to_order_map@);
            assert(matrix2@ =~= self.precedence_matrix@);
        }
        SBStateMachineModel {
            char_to_order_map: map2,
            precedence_matrix: matrix2,
            ratio_num: self.ratio_num,
            ratio_den: self.ratio_den,
            keep_english_letter: self.keep_english_letter,
            charset_name: self.charset_name.clone(),
            language: self.language.clone(),
        }
    }
}

/// The single-byte confidence, in parts per million: the positive-sequence
/// share against the typical ratio, scaled by the frequent-character share,
/// clamped to at most the 0.99 ceiling; the 0.01 floor is reported while no
/// sequence has been observed.
pub open spec fn spec_sb_confidence(
    total_seqs: u32,
    seq_positive: u32,
    freq_char: u32,
    total_char: u32,
    rn: u32,
    rd: u32,
) -> u32 {
    if total_seqs == 0 {
        CONF_SURE_NO
    } else {
        let r = (seq_positive as int * rd as int * freq_char as int * CONF_ONE as int) / (
        total_seqs as int * rn as int * total_char as int);
        if r >= CONF_SURE_YES as int {
            CONF_SURE_YES
        } else {
            r as u32
        }
    }
}

/// A single-byte detector session.
pub struct SingleByteCharsetProber {
    /// The current verdict.
    pub m_state: ProbingState,
    /// The model driving this detector; never mutated.
    pub m_model: SBStateMachineModel,
    /// Whether the matrix is indexed `[current][previous]` instead, modelling
    /// visual-order text.
    pub m_reversed: bool,
    /// The order of the previous character.
    pub m_last_order: u8,
    /// Sequences classified as illegal (saturating).
    pub m_seq_negative: u32,
    /// Sequences classified as very unlikely (saturating).
    pub m_seq_unlikely: u32,
    /// Sequences classified as normal (saturating).
    pub m_seq_likely: u32,
    /// Sequences classified as very likely (saturating).
    pub m_seq_positive: u32,
    /// Sequences classified in all (saturating).
    pub m_total_seqs: u32,
    /// Characters seen, control characters aside (saturating).
    pub m_total_char: u32,
    /// Characters among the most frequent orders (saturating).
    pub m_freq_char: u32,
}

impl SingleByteCharsetProber {
    /// The model is well formed and the counters are mutually consistent.
    pub open spec fn wf(&self) -> bool {
        &&& self.m_model.wf()
        &&& self.m_freq_char <= self.m_total_char
        &&& self.m_total_seqs > 0 ==> self.m_total_char > 0
    }

    /// The session after absorbing one character of the effective stream.
    pub open spec fn spec_step(self, ch: u8) -> SingleByteCharsetProber {
        let order = self.m_model.char_to_order_map@[ch as int];
        let total_char = if order < CAT_CONTROL {
            sat_inc(self.m_total_char)
        } else {
            self.m_total_char
        };
        if (order as usize) < SAMPLE_SIZE {
            let freq_char = sat_inc(self.m_freq_char);
            if (self.m_last_order as usize) < SAMPLE_SIZE {
                let total_seqs = sat_inc(self.m_total_seqs);
                let mv = if self.m_reversed {
                    self.m_model.precedence_matrix@[order as int * SAMPLE_SIZE
                        + self.m_last_order as int]
                } else {
                    self.m_model.precedence_matrix@[self.m_last_order as int * SAMPLE_SIZE
                        + order as int]
                };
                SingleByteCharsetProber {
                    m_total_char: total_char,
                    m_freq_char: freq_char,
                    m_total_seqs: total_seqs,
                    m_seq_negative: if mv == SEQ_NEGATIVE as u8 {
                        sat_inc(self.m_seq_negative)
                    } else {
                        self.m_seq_negative
                    },
                    m_seq_unlikely: if mv == SEQ_UNLIKELY as u8 {
                        sat_inc(self.m_seq_unlikely)
                    } else {
                        self.m_seq_unlikely
                    },
                    m_seq_likely: if mv == SEQ_LIKELY as u8 {
                        sat_inc(self.m_seq_likely)
                    } else {
                        self.m_seq_likely
                    },
                    m_seq_positive: if mv == SEQ_POSITIVE as u8 {
                        sat_inc(self.m_seq_positive)
                    } else {
                        self.m_seq_positive
                    },
                    m_last_order: order,
                    ..self
                }
            } else {
                SingleByteCharsetProber {
                    m_total_char: total_char,
                    m_freq_char: freq_char,
                    m_last_order: order,
                    ..self
                }
            }
        } else {
            SingleByteCharsetProber { m_total_char: total_char, m_last_order: order, ..self }
        }
    }

    /// The session after the character loop has consumed `bytes[i..]`.
    pub open spec fn spec_run(self, bytes: Seq<u8>, i: nat) -> SingleByteCharsetProber
        decreases bytes.len() - i,
    {
        if i >= bytes.len() {
            self
        } else {
            self.spec_step(bytes[i as int]).spec_run(bytes, i + 1)
        }
    }

    /// The confidence over this session's counters.
    pub open spec fn spec_confidence(self) -> u32 {
        spec_sb_confidence(
            self.m_total_seqs,
            self.m_seq_positive,
            self.m_freq_char,
            self.m_total_char,
            self.m_model.ratio_num,
            self.m_model.ratio_den,
        )
    }

    /// The session after one whole feed call: the stream is first filtered
    /// around international words unless the model keeps English letters;
    /// an empty effective stream changes nothing; otherwise the character
    /// loop runs and, with enough sequences, the early-exit shortcut applies.
    pub open spec fn spec_feed(self, input: Seq<u8>) -> SingleByteCharsetProber {
        let eff = if self.m_model.keep_english_letter {
            input
        } else {
            spec_filter_international_words(input)
        };
        if eff.len() == 0 {
            self
        } else {
            let t = self.spec_run(eff, 0);
            if t.m_state == ProbingState::Detecting && t.m_total_seqs > SB_ENOUGH_REL_THRESHOLD {
                let c = t.spec_confidence();
                if c > CONF_POSITIVE_SHORTCUT {
                    SingleByteCharsetProber { m_state: ProbingState::FoundIt, ..t }
                } else if c < CONF_NEGATIVE_SHORTCUT {
                    SingleByteCharsetProber { m_state: ProbingState::NotMe, ..t }
                } else {
                    t
                }
            } else {
                t
            }
        }
    }

    /// A fresh detector over the given model; `reversed` selects the
    /// visual-order matrix indexing.
    pub fn new(model: SBStateMachineModel, reversed: bool) -> (r: SingleByteCharsetProber)
        requires
            model.wf(),
        ensures
            r.wf(),
            r.m_state == ProbingState::Detecting,
            r.m_model == model,
            r.m_reversed == reversed,
            r.m_last_order == NO_PREVIOUS_ORDER,
            r.m_seq_negative == 0,
            r.m_seq_unlikely == 0,
            r.m_seq_likely == 0,
            r.m_seq_positive == 0,
            r.m_total_seqs == 0,
            r.m_total_char == 0,
            r.m_freq_char == 0,
    {
        SingleByteCharsetProber {
            m_state: ProbingState::Detecting,
            m_model: model,
            m_reversed: reversed,
            m_last_order: NO_PREVIOUS_ORDER,
            m_seq_negative: 0,
            m_seq_unlikely: 0,
            m_seq_likely: 0,
            m_seq_positive: 0,
            m_total_seqs: 0,
            m_total_char: 0,
            m_freq_char: 0,
        }
    }

    /// Returns the session to its just-constructed state; the model and the
    /// direction flag are untouched.
    pub fn reset(&mut self)
        requires
            old(self).wf(),
        ensures
            final(self).wf(),
            *final(self) == (SingleByteCharsetProber {
                m_state: ProbingState::Detecting,
                m_last_order: NO_PREVIOUS_ORDER,
                m_seq_negative: 0u32,
                m_seq_unlikely: 0u32,
                m_seq_likely: 0u32,
                m_seq_positive: 0u32,
                m_total_seqs: 0u32,
                m_total_char: 0u32,
                m_freq_char: 0u32,
                ..*old(self)
            }),
    {
        self.m_state = ProbingState::Detecting;
        self.m_last_order = NO_PREVIOUS_ORDER;
        self.m_seq_negative = 0;
        self.m_seq_unlikely = 0;
        self.m_seq_likely = 0;
        self.m_seq_positive = 0;
        self.m_total_seqs = 0;
        self.m_total_char = 0;
        self.m_freq_char = 0;
    }

    /// Scans one buffer: filters it per the model's English-letter policy,
    /// accumulates order and bigram statistics, and applies the early-exit
    /// shortcuts once enough sequences have been seen.
    pub fn feed(&mut self, byte_str: &[u8]) -> (r: ProbingState)
        requires
            old(self).wf(),
        ensures
            final(self).wf(),
            *final(self) == old(self).spec_feed(byte_str@),
            r == final(self).m_state,
    {
        let ghost orig = *old(self);
        let filtered: Vec<u8>;
        let eff: &[u8];
        if !self.m_model.keep_english_letter {
            filtered = filter_international_words(byte_str);
            eff = filtered.as_slice();
        } else {
            filtered = Vec::new();
            eff = byte_str;
        }
        if eff.len() == 0 {
            return self.m_state;
        }
        let mut i: usize = 0;
        while i < eff.len()
            invariant
                i <= eff@.len(),
                self.wf(),
                orig.spec_run(eff@, 0) == self.spec_run(eff@, i as nat),
            decreases eff@.len() - i,
        {
            let ch = eff[i];
            let order: u8 = self.m_model.char_to_order_map[ch as usize];
            if order < CAT_CONTROL {
                if self.m_total_char < u32::MAX {
                    self.m_total_char = self.m_total_char + 1;
                }
            }
            if (order as usize) < SAMPLE_SIZE {
                if self.m_freq_char < u32::MAX {
                    self.m_freq_char = self.m_freq_char + 1;
                }
                if (self.m_last_order as usize) < SAMPLE_SIZE {
                    if self.m_total_seqs < u32::MAX {
                        self.m_total_seqs = self.m_total_seqs + 1;
                    }
                    let idx: usize = if self.m_reversed {
                        (order as usize) * SAMPLE_SIZE + (self.m_last_order as usize)
                    } else {
                        (self.m_last_order as usize) * SAMPLE_SIZE + (order as usize)
                    };
                    let mv: u8 = self.m_model.precedence_matrix[idx];
                    if mv == SEQ_NEGATIVE as u8 {
                        if self.m_seq_negative < u32::MAX {
                            self.m_seq_negative = self.m_seq_negative + 1;
                        }
                    } else if mv == SEQ_UNLIKELY as u8 {
                        if self.m_seq_unlikely < u32::MAX {
                            self.m_seq_unlikely = self.m_seq_unlikely + 1;
                        }
                    } else if mv == SEQ_LIKELY as u8 {
                        if self.m_seq_likely < u32::MAX {
                            self.m_seq_likely = self.m_seq_likely + 1;
                        }
                    } else {
                        if self.m_seq_positive < u32::MAX {
                            self.m_seq_positive = self.m_seq_positive + 1;
                        }
                    }
                }
            }
            self.m_last_order = order;
            i = i + 1;
        }
        if self.m_state == ProbingState::Detecting && self.m_total_seqs > SB_ENOUGH_REL_THRESHOLD {
            let confidence = self.get_confidence();
            if confidence > CONF_POSITIVE_SHORTCUT {
                self.m_state = ProbingState::FoundIt;
            } else if confidence < CONF_NEGATIVE_SHORTCUT {
                self.m_state = ProbingState::NotMe;
            }
        }
        self.m_state
    }

    /// The charset name of the model driving this detector.
    pub fn get_charset(&self) -> (r: String)
        ensures
            r@ == self.m_model.charset_name@,
    {
        self.m_model.charset_name.clone()
    }

    /// The confidence over the statistics seen so far; the floor 0.01 is
    /// reported while no sequence has been observed.
    pub fn get_confidence(&self) -> (r: u32)
        requires
            self.wf(),
        ensures
            r == self.spec_confidence(),
            r <= CONF_SURE_YES,
            self.m_total_seqs == 0 ==> r == CONF_SURE_NO,
    {
        if self.m_total_seqs == 0 {
            return CONF_SURE_NO;
        }
        proof {
            let p = self.m_seq_positive as int;
            let rd = self.m_model.ratio_den as int;
            let f = self.m_freq_char as int;
            let t = self.m_total_seqs as int;
            let rn = self.m_model.ratio_num as int;
            let tc = self.m_total_char as int;
            assert(0 <= p * rd < 0x100000000 * 0x100000000 && 0 <= p * rd * f < 0x100000000
                * 0x100000000 * 0x100000000 && p * rd * f * (CONF_ONE as int) < 0x100000000
                * 0x100000000 * 0x100000000 * 0x100000) by (nonlinear_arith)
                requires
                    0 <= p < 0x100000000,
                    0 <= rd < 0x100000000,
                    0 <= f < 0x100000000,
            ;
            assert(0 < t * rn < 0x100000000 * 0x100000000 && 0 < t * rn * tc < 0x100000000
                * 0x100000000 * 0x100000000) by (nonlinear_arith)
                requires
                    0 < t < 0x100000000,
                    0 < rn < 0x100000000,
                    0 < tc < 0x100000000,
            ;
        }
        let num: u128 = (self.m_seq_positive as u128) * (self.m_model.ratio_den as u128)
            * (self.m_freq_char as u128) * (CONF_ONE as u128);
        let den: u128 = (self.m_total_seqs as u128) * (self.m_model.ratio_num as u128)
            * (self.m_total_char as u128);
        let r: u128 = num / den;
        if r >= CONF_SURE_YES as u128 {
            CONF_SURE_YES
        } else {
            r as u32
        }
    }

    /// The language label of the model driving this detector.
    pub fn get_language(&self) -> (r: String)
        ensures
            r@ == self.m_model.language@,
    {
        self.m_model.language.clone()
    }

    /// The current verdict without scanning anything.
    pub fn get_state(&self) -> (r: ProbingState)
        ensures
            r == self.m_state,
    {
        self.m_state
    }
}

/// Scanning picks up where it left off: the character loop over a
/// concatenation from the boundary equals the loop over the second chunk
/// from its start.
proof fn lemma_sb_run_shift(s: SingleByteCharsetProber, a: Seq<u8>, b: Seq<u8>, k: nat)
    requires
        k <= b.len(),
    ensures
        s.spec_run(a + b, a.len() + k) == s.spec_run(b, k),
    decreases b.len() - k,
{
    assert((a + b).len() == a.len() + b.len());
    if k < b.len() {
        assert((a + b)[a.len() + k as int] == b[k as int]);
        lemma_sb_run_shift(s.spec_step(b[k as int]), a, b, k + 1);
    }
}

/// The character loop composes over concatenation: it is a plain fold with
/// the previous order carried in the session.
proof fn lemma_sb_run_split(s: SingleByteCharsetProber, a: Seq<u8>, b: Seq<u8>, i: nat)
    requires
        i <= a.len(),
    ensures
        s.spec_run(a + b, i) == s.spec_run(a, i).spec_run(b, 0),
    decreases a.len() - i,
{
    if i >= a.len() {
        lemma_sb_run_shift(s, a, b, 0);
    } else {
        assert((a + b)[i as int] == a[i as int]);
        lemma_sb_run_split(s.spec_step(a[i as int]), a, b, i + 1);
    }
}

/// Split feeding, for a model that keeps English letters (so that no word
/// filter spans the chunk boundary): while the detector is still undecided
/// after the first chunk, feeding a buffer in two chunks leaves the session
/// exactly as feeding the concatenation at once.
pub proof fn lemma_sb_feed_split(s: SingleByteCharsetProber, a: Seq<u8>, b: Seq<u8>)
    requires
        s.m_model.keep_english_letter,
        s.m_state == ProbingState::Detecting,
        s.spec_feed(a).m_state == ProbingState::Detecting,
    ensures
        s.spec_feed(a).spec_feed(b) == s.spec_feed(a + b),
{
    if a.len() == 0 {
        assert(a + b =~= b);
        assert(s.spec_feed(a) == s);
    } else {
        let t = s.spec_run(a, 0);
        lemma_sb_run_frame(s, a, 0);
        assert(s.spec_feed(a) == t);
        lemma_sb_run_split(s, a, b, 0);
        lemma_sb_run_frame(t, b, 0);
        if b.len() == 0 {
            assert(a + b =~= a);
        }
    }
}

/// The character loop never touches the verdict or the model; only the
/// counters and the order lookback move.
proof fn lemma_sb_run_frame(s: SingleByteCharsetProber, bytes: Seq<u8>, i: nat)
    ensures
        s.spec_run(bytes, i).m_state == s.m_state,
        s.spec_run(bytes, i).m_model == s.m_model,
        s.spec_run(bytes, i).m_reversed == s.m_reversed,
    decreases bytes.len() - i,
{
    if i < bytes.len() {
        lemma_sb_run_frame(s.spec_step(bytes[i as int]), bytes, i + 1);
    }
}

} // verus!
