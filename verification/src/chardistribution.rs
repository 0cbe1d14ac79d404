//! Distribution analyzer: a statistic that, given each 2-byte sequence and its
//! detected character length, looks a frequency rank up in an encoding
//! specific order table and accumulates a total and a frequent-character
//! count, from which a confidence ratio is computed.

use vstd::prelude::*;
use vstd::arithmetic::div_mod::lemma_div_is_ordered;
use vstd::arithmetic::div_mod::lemma_div_is_ordered_by_denominator;
use vstd::arithmetic::mul::lemma_mul_inequality;
use vstd::arithmetic::mul::lemma_mul_strict_inequality;

use crate::CONF_ONE;
use crate::CONF_SURE_NO;
use crate::CONF_SURE_YES;

verus! {

/// A total count above this is enough data for an early verdict.
pub const ENOUGH_DATA_THRESHOLD: u32 = 1024;

/// With this many frequent characters or fewer, the analyzer is sure of
/// nothing and reports the floor confidence.
pub const MINIMUM_DATA_THRESHOLD: u32 = 3;

/// Frequency ranks numerically below this count as "frequent" characters.
pub const FREQUENT_RANK_LIMIT: u16 = 512;

/// Which byte-pair-to-order formula a distribution analyzer uses. Each
/// variant reflects the lead/trail byte ranges of one double-byte encoding.
#[derive(Clone, Copy, PartialEq, Eq, Structural, Debug)]
pub enum OrderScheme {
    EucTw,
    EucKr,
    Gb2312,
    Big5,
    Sjis,
    EucJp,
}

/// The order (index into the frequency-rank table) of the 2-byte sequence
/// `(b0, b1)` under the given scheme; `None` when the pair is outside the
/// scheme's character range.
pub open spec fn spec_order(scheme: OrderScheme, b0: u8, b1: u8) -> Option<int> {
    match scheme {
        OrderScheme::EucTw => if b0 >= 0xC4 {
            let order = 94 * (b0 as int - 0xC4) + b1 as int - 0xA1;
            if order >= 0 {
                Some(order)
            } else {
                None
            }
        } else {
            None
        },
        OrderScheme::EucKr => if b0 >= 0xB0 {
            let order = 94 * (b0 as int - 0xB0) + b1 as int - 0xA1;
            if order >= 0 {
                Some(order)
            } else {
                None
            }
        } else {
            None
        },
        OrderScheme::Gb2312 => if b0 >= 0xB0 && b1 >= 0xA1 {
            let order = 94 * (b0 as int - 0xB0) + b1 as int - 0xA1;
            if order >= 0 {
                Some(order)
            } else {
                None
            }
        } else {
            None
        },
        OrderScheme::Big5 => if b0 >= 0xA4 {
            let order = if b1 >= 0xA1 {
                157 * (b0 as int - 0xA4) + b1 as int - 0xA1 + 63
            } else {
                157 * (b0 as int - 0xA4) + b1 as int - 0x40
            };
            if order >= 0 {
                Some(order)
            } else {
                None
            }
        } else {
            None
        },
        OrderScheme::Sjis => {
            let lead = if 0x81 <= b0 && b0 <= 0x9F {
                Some(188 * (b0 as int - 0x81))
            } else if 0xE0 <= b0 && b0 <= 0xEF {
                Some(188 * (b0 as int - 0xE0 + 31))
            } else {
                None
            };
            match lead {
                Some(base) => {
                    let order = base + b1 as int - 0x40;
                    if b1 > 0x7F {
                        None
                    } else if order >= 0 {
                        Some(order)
                    } else {
                        None
                    }
                },
                None => None,
            }
        },
        OrderScheme::EucJp => if b0 >= 0xA0 {
            let order = 94 * (b0 as int - 0xA1) + b1 as int - 0xA1;
            if order >= 0 {
                Some(order)
            } else {
                None
            }
        } else {
            None
        },
    }
}

/// A count that sticks at `u32::MAX` instead of wrapping.
pub open spec fn sat_inc(x: u32) -> u32 {
    if x < u32::MAX {
        (x + 1) as u32
    } else {
        x
    }
}

/// The confidence, in parts per million, derived from `total` observed
/// sequences of which `freq` were frequent, against the typical distribution
/// ratio `rn / rd`: `freq / ((total - freq) * ratio)`, clamped to
/// `[CONF_SURE_NO, CONF_SURE_YES]`; the floor is reported outright while
/// `freq` is at or below the minimum data threshold.
pub open spec fn spec_distribution_confidence(total: u32, freq: u32, rn: u32, rd: u32) -> u32 {
    if total == 0 || freq <= MINIMUM_DATA_THRESHOLD {
        CONF_SURE_NO
    } else if total == freq {
        CONF_SURE_YES
    } else {
        let r = (freq as int * rd as int * CONF_ONE as int) / ((total as int - freq as int)
            * rn as int);
        if r < CONF_SURE_NO as int {
            CONF_SURE_NO
        } else if r > CONF_SURE_YES as int {
            CONF_SURE_YES
        } else {
            r as u32
        }
    }
}

/// A distribution analyzer session: the scheme and tables that drive it and
/// the two cumulative counters.
pub struct CharDistributionAnalysis {
    /// The byte-pair-to-order formula of this analyzer's encoding.
    pub scheme: OrderScheme,
    /// Order-to-frequency-rank table of the encoding.
    pub m_char_to_freq_order: Vec<u16>,
    /// Number of orders covered by the table.
    pub m_table_size: usize,
    /// Numerator of the typical distribution ratio.
    pub m_ratio_num: u32,
    /// Denominator of the typical distribution ratio.
    pub m_ratio_den: u32,
    /// Sequences characterized so far (saturating).
    pub m_total_chars: u32,
    /// Frequent sequences seen so far (saturating).
    pub m_freq_chars: u32,
}

impl CharDistributionAnalysis {
    /// The ratio is positive, the table matches its declared size, and the
    /// frequent count never exceeds the total.
    pub open spec fn wf(&self) -> bool {
        &&& self.m_ratio_num > 0
        &&& self.m_ratio_den > 0
        &&& self.m_char_to_freq_order@.len() == self.m_table_size
        &&& self.m_freq_chars <= self.m_total_chars
    }

    /// A fresh analyzer over the given scheme, table and typical ratio.
    pub fn new(scheme: OrderScheme, table: Vec<u16>, ratio_num: u32, ratio_den: u32) -> (r:
        CharDistributionAnalysis)
        requires
            ratio_num > 0,
            ratio_den > 0,
        ensures
            r.wf(),
            r.scheme == scheme,
            r.m_char_to_freq_order@ == table@,
            r.m_table_size == table@.len(),
            r.m_ratio_num == ratio_num,
            r.m_ratio_den == ratio_den,
            r.m_total_chars == 0,
            r.m_freq_chars == 0,
    {
        let size: usize = table.len();
        CharDistributionAnalysis {
            scheme,
            m_char_to_freq_order: table,
            m_table_size: size,
            m_ratio_num: ratio_num,
            m_ratio_den: ratio_den,
            m_total_chars: 0,
            m_freq_chars: 0,
        }
    }

    /// The analyzer after absorbing one 2-byte sequence of the given detected
    /// character length. Only double-byte characters whose order falls in
    /// range are counted; a frequent one also bumps the frequent count.
    pub open spec fn spec_feed(self, pair: Seq<u8>, char_len: usize) -> CharDistributionAnalysis {
        if char_len == 2 && pair.len() >= 2 {
            match spec_order(self.scheme, pair[0], pair[1]) {
                Some(order) => {
                    let freq = if order < self.m_table_size
                        && self.m_char_to_freq_order@[order] < FREQUENT_RANK_LIMIT {
                        sat_inc(self.m_freq_chars)
                    } else {
                        self.m_freq_chars
                    };
                    CharDistributionAnalysis {
                        m_total_chars: sat_inc(self.m_total_chars),
                        m_freq_chars: freq,
                        ..self
                    }
                },
                None => self,
            }
        } else {
            self
        }
    }

    /// Absorbs one 2-byte sequence with its detected character length.
    pub fn feed(&mut self, pair: &[u8], char_len: usize)
        requires
            old(self).wf(),
        ensures
            final(self).wf(),
            *final(self) == old(self).spec_feed(pair@, char_len),
    {
        if char_len != 2 || pair.len() < 2 {
            return ;
        }
        let order: Option<usize> = order_of(self.scheme, pair[0], pair[1]);
        match order {
            Some(o) => {
                if o < self.m_table_size && self.m_char_to_freq_order[o] < FREQUENT_RANK_LIMIT {
                    if self.m_freq_chars < u32::MAX {
                        self.m_freq_chars = self.m_freq_chars + 1;
                    }
                }
                if self.m_total_chars < u32::MAX {
                    self.m_total_chars = self.m_total_chars + 1;
                }
            },
            None => {},
        }
    }

    /// The confidence ratio over the counters seen so far, in parts per
    /// million, always within `[CONF_SURE_NO, CONF_SURE_YES]`.
    pub fn get_confidence(&self) -> (r: u32)
        requires
            self.wf(),
        ensures
            r == spec_distribution_confidence(
                self.m_total_chars,
                self.m_freq_chars,
                self.m_ratio_num,
                self.m_ratio_den,
            ),
            CONF_SURE_NO <= r <= CONF_SURE_YES,
    {
        if self.m_total_chars == 0 || self.m_freq_chars <= MINIMUM_DATA_THRESHOLD {
            return CONF_SURE_NO;
        }
        if self.m_total_chars == self.m_freq_chars {
            return CONF_SURE_YES;
        }
        proof {
            let f = self.m_freq_chars as int;
            let t = self.m_total_chars as int;
            let rn = self.m_ratio_num as int;
            let rd = self.m_ratio_den as int;
            assert(f * rd * (CONF_ONE as int) < 0x100000000 * 0x100000000 * 0x100000)
                by (nonlinear_arith)
                requires
                    0 <= f < 0x100000000,
                    0 <= rd < 0x100000000,
            ;
            assert((t - f) * rn < 0x100000000 * 0x100000000 && (t - f) * rn > 0)
                by (nonlinear_arith)
                requires
                    0 < t - f,
                    t - f < 0x100000000,
                    0 < rn,
                    rn < 0x100000000,
            ;
        }
        let num: u128 = (self.m_freq_chars as u128) * (self.m_ratio_den as u128)
            * (CONF_ONE as u128);
        let den: u128 = ((self.m_total_chars - self.m_freq_chars) as u128)
            * (self.m_ratio_num as u128);
        let r: u128 = num / den;
        if r < CONF_SURE_NO as u128 {
            CONF_SURE_NO
        } else if r > CONF_SURE_YES as u128 {
            CONF_SURE_YES
        } else {
            r as u32
        }
    }

    /// Whether enough sequences have been seen to allow an early verdict.
    pub fn got_enough_data(&self) -> (r: bool)
        ensures
            r == (self.m_total_chars > ENOUGH_DATA_THRESHOLD),
    {
        self.m_total_chars > ENOUGH_DATA_THRESHOLD
    }

    /// Clears the counters; the scheme and tables are untouched.
    pub fn reset(&mut self)
        ensures
            *final(self) == (CharDistributionAnalysis {
                m_total_chars: 0,
                m_freq_chars: 0,
                ..*old(self)
            }),
            old(self).wf() ==> final(self).wf(),
    {
        self.m_total_chars = 0;
        self.m_freq_chars = 0;
    }

    /// The order of a 2-byte sequence under this analyzer's scheme, as the
    /// callers of the original byte-pair formula see it.
    pub fn get_order(&self, pair: &[u8]) -> (r: Option<usize>)
        ensures
            match r {
                Some(o) => pair@.len() >= 2 && spec_order(self.scheme, pair@[0], pair@[1])
                    == Some(o as int),
                None => pair@.len() < 2 || spec_order(self.scheme, pair@[0], pair@[1]) is None,
            },
    {
        if pair.len() < 2 {
            return None;
        }
        order_of(self.scheme, pair[0], pair[1])
    }
}

/// Evaluates the byte-pair-to-order formula of `scheme` on `(b0, b1)`.
pub fn order_of(scheme: OrderScheme, b0: u8, b1: u8) -> (r: Option<usize>)
    ensures
        match r {
            Some(o) => spec_order(scheme, b0, b1) == Some(o as int),
            None => spec_order(scheme, b0, b1) is None,
        },
{
    match scheme {
        OrderScheme::EucTw => {
            if b0 >= 0xC4 {
                let order: i32 = 94 * (b0 as i32 - 0xC4) + b1 as i32 - 0xA1;
                if order >= 0 {
                    Some(order as usize)
                } else {
                    None
                }
            } else {
                None
            }
        },
        OrderScheme::EucKr => {
            if b0 >= 0xB0 {
                let order: i32 = 94 * (b0 as i32 - 0xB0) + b1 as i32 - 0xA1;
                if order >= 0 {
                    Some(order as usize)
                } else {
                    None
                }
            } else {
                None
            }
        },
        OrderScheme::Gb2312 => {
            if b0 >= 0xB0 && b1 >= 0xA1 {
                let order: i32 = 94 * (b0 as i32 - 0xB0) + b1 as i32 - 0xA1;
                if order >= 0 {
                    Some(order as usize)
                } else {
                    None
                }
            } else {
                None
            }
        },
        OrderScheme::Big5 => {
            if b0 >= 0xA4 {
                let order: i32 = if b1 >= 0xA1 {
                    157 * (b0 as i32 - 0xA4) + b1 as i32 - 0xA1 + 63
                } else {
                    157 * (b0 as i32 - 0xA4) + b1 as i32 - 0x40
                };
                if order >= 0 {
                    Some(order as usize)
                } else {
                    None
                }
            } else {
                None
            }
        },
        OrderScheme::Sjis => {
            let mut order: i32;
            if 0x81 <= b0 && b0 <= 0x9F {
                order = 188 * (b0 as i32 - 0x81);
            } else if 0xE0 <= b0 && b0 <= 0xEF {
                order = 188 * (b0 as i32 - 0xE0 + 31);
            } else {
                return None;
            }
            order = order + b1 as i32 - 0x40;
            if b1 > 0x7F {
                None
            } else if order >= 0 {
                Some(order as usize)
            } else {
                None
            }
        },
        OrderScheme::EucJp => {
            if b0 >= 0xA0 {
                let order: i32 = 94 * (b0 as i32 - 0xA1) + b1 as i32 - 0xA1;
                if order >= 0 {
                    Some(order as usize)
                } else {
                    None
                }
            } else {
                None
            }
        },
    }
}

/// For a fixed total, ratio and the whole counter range, the distribution
/// confidence stays within its floor and ceiling.
pub proof fn lemma_distribution_confidence_bounds(total: u32, freq: u32, rn: u32, rd: u32)
    ensures
        CONF_SURE_NO <= spec_distribution_confidence(total, freq, rn, rd) <= CONF_SURE_YES,
{
}

/// The distribution confidence is monotonically non-decreasing in the
/// frequent-character count for a fixed total and ratio.
pub proof fn lemma_distribution_confidence_monotonic(total: u32, f1: u32, f2: u32, rn: u32, rd: u32)
    requires
        rn > 0,
        rd > 0,
        f1 <= f2,
        f2 <= total,
    ensures
        spec_distribution_confidence(total, f1, rn, rd) <= spec_distribution_confidence(
            total,
            f2,
            rn,
            rd,
        ),
{
    lemma_distribution_confidence_bounds(total, f1, rn, rd);
    lemma_distribution_confidence_bounds(total, f2, rn, rd);
    if total == 0 || f1 <= MINIMUM_DATA_THRESHOLD {
        // The left side is the floor.
    } else if total == f2 || f1 == f2 {
        // The right side is the ceiling, or both sides agree.
    } else {
        let n1 = f1 as int * rd as int * CONF_ONE as int;
        let n2 = f2 as int * rd as int * CONF_ONE as int;
        let d1 = (total as int - f1 as int) * rn as int;
        let d2 = (total as int - f2 as int) * rn as int;
        assert(n1 <= n2) by {
            lemma_mul_inequality(f1 as int, f2 as int, rd as int);
            lemma_mul_inequality(f1 as int * rd as int, f2 as int * rd as int, CONF_ONE as int);
        };
        assert(0 < d2 <= d1) by {
            lemma_mul_inequality(total as int - f2 as int, total as int - f1 as int, rn as int);
            lemma_mul_strict_inequality(0, total as int - f2 as int, rn as int);
        };
        assert(n1 / d1 <= n2 / d2) by {
            lemma_div_is_ordered(n1, n2, d1);
            lemma_div_is_ordered_by_denominator(n2, d2, d1);
        };
    }
}

} // verus!
