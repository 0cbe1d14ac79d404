//! Latin-1 detector: no state machine, only a character-class bigram
//! likelihood model. Bytes are classed into eight character classes and each
//! consecutive class pair is scored by a fixed likelihood matrix; an illegal
//! pair rules Latin-1 out at once.

use vstd::prelude::*;
use vstd::slice::slice_to_vec;

use crate::CONF_ONE;
use crate::CONF_SURE_NO;
use crate::charsetprober::filter_with_english_letters;
use crate::charsetprober::spec_filter_with_english_letters;
use crate::chardistribution::sat_inc;
use crate::enums::ProbingState;

verus! {

/// Number of Latin-1 character classes.
pub const LATIN1_CLASS_NUM: usize = 8;

/// Number of likelihood categories of the class-pair matrix.
pub const LATIN1_FREQ_CAT_NUM: usize = 4;

/// The class of the byte before the first one: "other".
pub const LATIN1_CLASS_OTH: u8 = 1;

/// The calibration numerator applied to the raw ratio: 0.73, reflecting
/// Latin-1's high false-positive rate against similar high-byte text.
pub const LATIN1_CALIBRATION_NUM: u32 = 73;

/// The calibration denominator.
pub const LATIN1_CALIBRATION_DEN: u32 = 100;

/// The confidence over the Latin-1 category counters, in parts per million:
/// the likely count less twenty times the unlikely count, as a share of the
/// total, floored at zero and scaled by the calibration constant; the floor
/// confidence when the detector has ruled itself out.
pub open spec fn spec_latin1_confidence(
    state: ProbingState,
    c1: u32,
    c2: u32,
    c3: u32,
    total: int,
) -> u32 {
    if state == ProbingState::NotMe {
        CONF_SURE_NO
    } else if total < 1 {
        0u32
    } else {
        let diff = c3 as int - 20 * c1 as int;
        if diff <= 0 {
            0u32
        } else {
            ((diff * CONF_ONE as int / total) * LATIN1_CALIBRATION_NUM as int
                / LATIN1_CALIBRATION_DEN as int) as u32
        }
    }
}

/// A Latin-1 detector session: the two fixed tables and the category
/// counters.
pub struct Latin1Prober {
    /// The current verdict.
    pub m_state: ProbingState,
    /// The class of the previous character.
    pub m_last_char_class: u8,
    /// Pairs in category 1 (very unlikely).
    pub m_freq_counter1: u32,
    /// Pairs in category 2 (normal).
    pub m_freq_counter2: u32,
    /// Pairs in category 3 (very likely).
    pub m_freq_counter3: u32,
    /// Byte-to-class table, one entry per byte value.
    pub m_char_class_table: Vec<u8>,
    /// Class-pair likelihood matrix, indexed `[previous * 8 + current]`.
    pub m_class_model: Vec<u8>,
}

impl Latin1Prober {
    /// The tables have the right sizes and ranges.
    pub open spec fn wf(&self) -> bool {
        &&& self.m_char_class_table@.len() == 256
        &&& forall|i: int|
            0 <= i < 256 ==> self.m_char_class_table@[i] < LATIN1_CLASS_NUM as u8
        &&& self.m_class_model@.len() == LATIN1_CLASS_NUM * LATIN1_CLASS_NUM
        &&& forall|i: int|
            0 <= i < self.m_class_model@.len() ==> self.m_class_model@[i]
                < LATIN1_FREQ_CAT_NUM as u8
        &&& self.m_last_char_class < LATIN1_CLASS_NUM as u8
    }

    /// The session after the class loop of one feed call has consumed
    /// `bytes[i..]`: each class pair is scored; an illegal pair settles NotMe
    /// and stops the loop, any other bumps its category counter.
    pub open spec fn spec_scan(self, bytes: Seq<u8>, i: nat) -> Latin1Prober
        decreases bytes.len() - i,
    {
        if i >= bytes.len() {
            self
        } else {
            let char_class = self.m_char_class_table@[bytes[i as int] as int];
            let freq = self.m_class_model@[self.m_last_char_class as int * LATIN1_CLASS_NUM
                + char_class as int];
            if freq == 0 {
                Latin1Prober { m_state: ProbingState::NotMe, ..self }
            } else {
                let next = Latin1Prober {
                    m_freq_counter1: if freq == 1 {
                        sat_inc(self.m_freq_counter1)
                    } else {
                        self.m_freq_counter1
                    },
                    m_freq_counter2: if freq == 2 {
                        sat_inc(self.m_freq_counter2)
                    } else {
                        self.m_freq_counter2
                    },
                    m_freq_counter3: if freq == 3 {
                        sat_inc(self.m_freq_counter3)
                    } else {
                        self.m_freq_counter3
                    },
                    m_last_char_class: char_class,
                    ..self
                };
                next.spec_scan(bytes, i + 1)
            }
        }
    }

    /// The session after one whole feed call: the English-letters filter is
    /// applied, then the class loop runs over what it kept.
    pub open spec fn spec_feed(self, input: Seq<u8>) -> Latin1Prober {
        self.spec_scan(spec_filter_with_english_letters(input), 0)
    }

    /// A fresh detector over the fixed Latin-1 tables.
    pub fn new() -> (r: Latin1Prober)
        ensures
            r.wf(),
            r.m_state == ProbingState::Detecting,
            r.m_last_char_class == LATIN1_CLASS_OTH,
            r.m_freq_counter1 == 0,
            r.m_freq_counter2 == 0,
            r.m_freq_counter3 == 0,
    {
        let char_class: [u8; 256] = [
        1, 1, 1, 1, 1, 1, 1, 1, 1, 1, 1, 1, 1, 1, 1, 1,
        1, 1, 1, 1, 1, 1, 1, 1, 1, 1, 1, 1, 1, 1, 1, 1,
        1, 1, 1, 1, 1, 1, 1, 1, 1, 1, 1, 1, 1, 1, 1, 1,
        1, 1, 1, 1, 1, 1, 1, 1, 1, 1, 1, 1, 1, 1, 1, 1,
        1, 2, 2, 2, 2, 2, 2, 2, 2, 2, 2, 2, 2, 2, 2, 2,
        2, 2, 2, 2, 2, 2, 2, 2, 2, 2, 2, 1, 1, 1, 1, 1,
        1, 3, 3, 3, 3, 3, 3, 3, 3, 3, 3, 3, 3, 3, 3, 3,
        3, 3, 3, 3, 3, 3, 3, 3, 3, 3, 3, 1, 1, 1, 1, 1,
        1, 0, 1, 7, 1, 1, 1, 1, 1, 1, 5, 1, 5, 0, 5, 0,
        0, 1, 1, 1, 1, 1, 1, 1, 1, 1, 7, 1, 7, 0, 7, 5,
        1, 1, 1, 1, 1, 1, 1, 1, 1, 1, 1, 1, 1, 1, 1, 1,
        1, 1, 1, 1, 1, 1, 1, 1, 1, 1, 1, 1, 1, 1, 1, 1,
        4, 4, 4, 4, 4, 4, 5, 5, 4, 4, 4, 4, 4, 4, 4, 4,
        5, 5, 4, 4, 4, 4, 4, 1, 4, 4, 4, 4, 4, 5, 5, 5,
        6, 6, 6, 6, 6, 6, 7, 7, 6, 6, 6, 6, 6, 6, 6, 6,
        7, 7, 6, 6, 6, 6, 6, 1, 6, 6, 6, 6, 6, 7, 7, 7,
        ];
        let class_model: [u8; 64] = [
        0, 0, 0, 0, 0, 0, 0, 0, 0, 3, 3, 3, 3, 3, 3, 3,
        0, 3, 3, 3, 3, 3, 3, 3, 0, 3, 3, 3, 1, 1, 3, 3,
        0, 3, 3, 3, 1, 2, 1, 2, 0, 3, 3, 3, 3, 3, 3, 3,
        0, 3, 1, 3, 1, 1, 1, 3, 0, 3, 1, 3, 1, 1, 3, 3,
        ];
        let mut table: Vec<u8> = slice_to_vec(char_class.as_slice());
        let mut matrix: Vec<u8> = slice_to_vec(class_model.as_slice());
        if !tables_ok(&table, &matrix) {
            table = vec![LATIN1_CLASS_OTH; 256];
            matrix = vec![1u8; 64];
            proof {
                assert(forall|i: int| 0 <= i < 256 ==> table@[i] == LATIN1_CLASS_OTH);
                assert(forall|i: int| 0 <= i < 64 ==> matrix@[i] == 1u8);
            }
        }
        Latin1Prober {
            m_state: ProbingState::Detecting,
            m_last_char_class: LATIN1_CLASS_OTH,
            m_freq_counter1: 0,
            m_freq_counter2: 0,
            m_freq_counter3: 0,
            m_char_class_table: table,
            m_class_model: matrix,
        }
    }

    /// Returns the session to its just-constructed state.
    pub fn reset(&mut self)
        requires
            old(self).wf(),
        ensures
            final(self).wf(),
            *final(self) == (Latin1Prober {
                m_state: ProbingState::Detecting,
                m_last_char_class: LATIN1_CLASS_OTH,
                m_freq_counter1: 0u32,
                m_freq_counter2: 0u32,
                m_freq_counter3: 0u32,
                ..*old(self)
            }),
    {
        self.m_state = ProbingState::Detecting;
        self.m_last_char_class = LATIN1_CLASS_OTH;
        self.m_freq_counter1 = 0;
        self.m_freq_counter2 = 0;
        self.m_freq_counter3 = 0;
    }

    /// Scans one buffer: filters it, then scores every consecutive class
    /// pair, ruling Latin-1 out at the first illegal pair.
    pub fn feed(&mut self, byte_str: &[u8]) -> (r: ProbingState)
        requires
            old(self).wf(),
        ensures
            final(self).wf(),
            *final(self) == old(self).spec_feed(byte_str@),
            r == final(self).m_state,
    {
        let ghost orig = *old(self);
        let byte_str2 = filter_with_english_letters(byte_str);
        let n = byte_str2.len();
        let mut i: usize = 0;
        let mut stopped: bool = false;
        while i < n && !stopped
            invariant
                i <= n,
                n == byte_str2@.len(),
                byte_str2@ == spec_filter_with_english_letters(byte_str@),
                self.wf(),
                !stopped ==> orig.spec_scan(byte_str2@, 0) == self.spec_scan(byte_str2@, i as nat),
                stopped ==> *self == orig.spec_scan(byte_str2@, 0),
            decreases n - i + (if stopped { 0int } else { 1int }),
        {
            let c = byte_str2[i];
            let char_class: u8 = self.m_char_class_table[c as usize];
            let idx: usize = (self.m_last_char_class as usize) * LATIN1_CLASS_NUM + (char_class
                as usize);
            let freq: u8 = self.m_class_model[idx];
            if freq == 0 {
                self.m_state = ProbingState::NotMe;
                stopped = true;
            } else {
                if freq == 1 {
                    if self.m_freq_counter1 < u32::MAX {
                        self.m_freq_counter1 = self.m_freq_counter1 + 1;
                    }
                } else if freq == 2 {
                    if self.m_freq_counter2 < u32::MAX {
                        self.m_freq_counter2 = self.m_freq_counter2 + 1;
                    }
                } else {
                    if self.m_freq_counter3 < u32::MAX {
                        self.m_freq_counter3 = self.m_freq_counter3 + 1;
                    }
                }
                self.m_last_char_class = char_class;
                i = i + 1;
            }
        }
        self.m_state
    }

    /// The charset name this detector stands for.
    pub fn get_charset(&self) -> (r: String)
        ensures
            r@ == "ISO-8859-1"@,
    {
        "ISO-8859-1".to_owned()
    }

    /// The calibrated share of likely class pairs among everything scored.
    pub fn get_confidence(&self) -> (r: u32)
        ensures
            r == spec_latin1_confidence(
                self.m_state,
                self.m_freq_counter1,
                self.m_freq_counter2,
                self.m_freq_counter3,
                self.m_freq_counter1 as int + self.m_freq_counter2 as int
                    + self.m_freq_counter3 as int,
            ),
    {
        if self.m_state == ProbingState::NotMe {
            return CONF_SURE_NO;
        }
        let total: u64 = (self.m_freq_counter1 as u64) + (self.m_freq_counter2 as u64)
            + (self.m_freq_counter3 as u64);
        if total < 1 {
            return 0;
        }
        let c1_scaled: u64 = 20u64 * (self.m_freq_counter1 as u64);
        let c3: u64 = self.m_freq_counter3 as u64;
        if c3 <= c1_scaled {
            return 0;
        }
        let diff: u64 = c3 - c1_scaled;
        proof {
            assert(diff as int * CONF_ONE as int <= 0x100000000 * 1000000) by (nonlinear_arith)
                requires
                    0 <= diff as int <= 0x100000000,
            ;
        }
        let scaled: u64 = (diff * (CONF_ONE as u64)) / total;
        proof {
            vstd::arithmetic::mul::lemma_mul_inequality(
                diff as int,
                total as int,
                CONF_ONE as int,
            );
            vstd::arithmetic::div_mod::lemma_div_by_multiple(CONF_ONE as int, total as int);
            assert(total as int * CONF_ONE as int == CONF_ONE as int * total as int)
                by (nonlinear_arith);
            vstd::arithmetic::div_mod::lemma_div_is_ordered(
                diff as int * CONF_ONE as int,
                total as int * CONF_ONE as int,
                total as int,
            );
            assert(scaled <= CONF_ONE);
        }
        let calibrated: u64 = scaled * (LATIN1_CALIBRATION_NUM as u64) / (LATIN1_CALIBRATION_DEN
            as u64);
        proof {
            assert(diff as int * CONF_ONE as int / total as int == (c3 as int - 20
                * self.m_freq_counter1 as int) * CONF_ONE as int / total as int);
        }
        calibrated as u32
    }

    /// The language label this detector stands for: Latin-1 is not tied to
    /// one.
    pub fn get_language(&self) -> (r: String)
        ensures
            r@ == ""@,
    {
        "".to_owned()
    }

    /// The current verdict without scanning anything.
    pub fn get_state(&self) -> (r: ProbingState)
        ensures
            r == self.m_state,
    {
        self.m_state
    }
}

/// Checks the two fixed tables: every class in range and the matrix square.
fn tables_ok(table: &Vec<u8>, matrix: &Vec<u8>) -> (r: bool)
    ensures
        r ==> {
            &&& table@.len() == 256
            &&& forall|i: int| 0 <= i < 256 ==> table@[i] < LATIN1_CLASS_NUM as u8
            &&& matrix@.len() == LATIN1_CLASS_NUM * LATIN1_CLASS_NUM
            &&& forall|i: int|
                0 <= i < matrix@.len() ==> matrix@[i] < LATIN1_FREQ_CAT_NUM as u8
        },
{
    if table.len() != 256 {
        return false;
    }
    if matrix.len() != LATIN1_CLASS_NUM * LATIN1_CLASS_NUM {
        return false;
    }
    let mut i: usize = 0;
    while i < 256
        invariant
            i <= 256,
            table@.len() == 256,
            forall|k: int| 0 <= k < i ==> table@[k] < LATIN1_CLASS_NUM as u8,
        decreases 256 - i,
    {
        if table[i] >= LATIN1_CLASS_NUM as u8 {
            return false;
        }
        i = i + 1;
    }
    let mut j: usize = 0;
    while j < 64
        invariant
            j <= 64,
            matrix@.len() == 64,
            forall|k: int| 0 <= k < j ==> matrix@[k] < LATIN1_FREQ_CAT_NUM as u8,
        decreases 64 - j,
    {
        if matrix[j] >= LATIN1_FREQ_CAT_NUM as u8 {
            return false;
        }
        j = j + 1;
    }
    true
}

} // verus!
