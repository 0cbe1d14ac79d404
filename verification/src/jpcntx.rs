//! Japanese context analyzer: a bigram statistic over consecutive syllabary
//! characters, scored separately from the distribution analyzer. It is
//! table-driven: a model names the lead byte and trail range that select the
//! tracked characters and supplies the category matrix over their orders.

use vstd::prelude::*;

use crate::CONF_ONE;

verus! {

/// With this many relevant sequences or fewer the analyzer reports no
/// opinion.
pub const CTX_MINIMUM_DATA_THRESHOLD: u32 = 4;

/// A relevant-sequence total above this is enough data for an early verdict.
pub const CTX_ENOUGH_REL_THRESHOLD: u32 = 100;

/// Counting stops for good once the total exceeds this cap.
pub const CTX_MAX_REL_THRESHOLD: u32 = 1000;

/// Number of context likelihood categories.
pub const CTX_NUM_CATEGORIES: u8 = 6;

/// Order value meaning "previous character not tracked".
pub const CTX_NO_ORDER: u8 = 255;

/// An immutable context model: which 2-byte characters are tracked and the
/// category matrix over their orders.
pub struct ContextModel {
    /// Lead byte of the tracked syllabary rows.
    pub lead_byte: u8,
    /// Lowest trail byte of a tracked character.
    pub trail_lo: u8,
    /// Highest trail byte of a tracked character.
    pub trail_hi: u8,
    /// Number of tracked orders: the trail range width.
    pub order_count: u8,
    /// Category matrix, indexed `[previous_order * order_count + order]`;
    /// values are context likelihood categories, 0 meaning illegal.
    pub category_table: Vec<u8>,
    /// Charset name resolved by this analyzer.
    pub charset_name: String,
    /// Language label of the model.
    pub language: String,
}

impl ContextModel {
    /// The trail range is non-empty and matches the order count, and the
    /// matrix covers every order pair with a valid category.
    pub open spec fn wf(&self) -> bool {
        &&& self.trail_lo <= self.trail_hi
        &&& self.order_count == self.trail_hi - self.trail_lo + 1
        &&& self.category_table@.len() == self.order_count as int * self.order_count as int
        &&& forall|i: int|
            0 <= i < self.category_table@.len() ==> self.category_table@[i] < CTX_NUM_CATEGORIES
        &&& self.order_count < CTX_NO_ORDER
    }

    /// Builds a model after checking the supplied tables; returns `None`
    /// exactly when they do not fit together.
    pub fn new(
        lead_byte: u8,
        trail_lo: u8,
        trail_hi: u8,
        category_table: Vec<u8>,
        charset_name: String,
        language: String,
    ) -> (r: Option<ContextModel>)
        ensures
            match r {
                Some(m) => {
                    &&& m.wf()
                    &&& m.lead_byte == lead_byte
                    &&& m.trail_lo == trail_lo
                    &&& m.trail_hi == trail_hi
                    &&& m.category_table@ == category_table@
                    &&& m.charset_name@ == charset_name@
                    &&& m.language@ == language@
                },
                None => true,
            },
    {
        if trail_lo > trail_hi {
            return None;
        }
        let width: usize = (trail_hi - trail_lo) as usize + 1;
        if width >= CTX_NO_ORDER as usize {
            return None;
        }
        proof {
            assert(width * width <= 254 * 254) by (nonlinear_arith)
                requires
                    width < 255,
            ;
        }
        if category_table.len() != width * width {
            return None;
        }
        let n = category_table.len();
        let mut i: usize = 0;
        while i < n
            invariant
                i <= n,
                n == category_table@.len(),
                forall|k: int| 0 <= k < i ==> category_table@[k] < CTX_NUM_CATEGORIES,
            decreases n - i,
        {
            if category_table[i] >= CTX_NUM_CATEGORIES {
                return None;
            }
            i = i + 1;
        }
        Some(
            ContextModel {
                lead_byte,
                trail_lo,
                trail_hi,
                order_count: (trail_hi - trail_lo) + 1,
                category_table,
                charset_name,
                language,
            },
        )
    }
}

/// The tracked order of one character, or the no-order sentinel: only 2-byte
/// characters with the model's lead byte and a trail byte in range have one.
pub open spec fn spec_ctx_order(m: ContextModel, char_len: usize, b0: u8, b1: u8) -> u8 {
    if char_len == 2 && b0 == m.lead_byte && m.trail_lo <= b1 && b1 <= m.trail_hi {
        (b1 - m.trail_lo) as u8
    } else {
        CTX_NO_ORDER
    }
}

/// A context analyzer session: the model, the category counters, the order
/// of the previous character, and the done flag set once the cap is reached.
pub struct JapaneseContextAnalysis {
    /// The model driving this analyzer; never mutated.
    pub model: ContextModel,
    /// Relevant sequences seen.
    pub m_total_rel: u32,
    /// Sequences in category 0 (illegal pairs).
    pub m_rel_sample0: u32,
    /// Sequences in category 1.
    pub m_rel_sample1: u32,
    /// Sequences in category 2.
    pub m_rel_sample2: u32,
    /// Sequences in category 3.
    pub m_rel_sample3: u32,
    /// Sequences in category 4.
    pub m_rel_sample4: u32,
    /// Sequences in category 5.
    pub m_rel_sample5: u32,
    /// Order of the previous character, or the no-order sentinel.
    pub m_last_char_order: u8,
    /// Whether counting has stopped for good.
    pub m_done: bool,
}

impl JapaneseContextAnalysis {
    /// The model is well formed and the counters stay within the cap.
    pub open spec fn wf(&self) -> bool {
        &&& self.model.wf()
        &&& self.m_total_rel <= CTX_MAX_REL_THRESHOLD + 1
        &&& !self.m_done ==> self.m_total_rel <= CTX_MAX_REL_THRESHOLD
        &&& self.m_rel_sample0 <= self.m_total_rel
        &&& self.m_rel_sample1 <= self.m_total_rel
        &&& self.m_rel_sample2 <= self.m_total_rel
        &&& self.m_rel_sample3 <= self.m_total_rel
        &&& self.m_rel_sample4 <= self.m_total_rel
        &&& self.m_rel_sample5 <= self.m_total_rel
        &&& self.m_last_char_order == CTX_NO_ORDER || self.m_last_char_order
            < self.model.order_count
    }

    /// The session after absorbing one character given as its (up to) two
    /// bytes and detected length: a pair of consecutively tracked characters
    /// bumps the total and, below the cap, the category counter of the pair;
    /// crossing the cap stops the analyzer for good.
    pub open spec fn spec_feed(self, b0: u8, b1: u8, char_len: usize) -> JapaneseContextAnalysis {
        if self.m_done {
            self
        } else {
            let order = spec_ctx_order(self.model, char_len, b0, b1);
            if order != CTX_NO_ORDER && self.m_last_char_order != CTX_NO_ORDER {
                let total = (self.m_total_rel + 1) as u32;
                if total > CTX_MAX_REL_THRESHOLD {
                    JapaneseContextAnalysis { m_total_rel: total, m_done: true, ..self }
                } else {
                    let cat = self.model.category_table@[self.m_last_char_order as int
                        * self.model.order_count as int + order as int];
                    let bumped = JapaneseContextAnalysis {
                        m_total_rel: total,
                        m_rel_sample0: if cat == 0 {
                            (self.m_rel_sample0 + 1) as u32
                        } else {
                            self.m_rel_sample0
                        },
                        m_rel_sample1: if cat == 1 {
                            (self.m_rel_sample1 + 1) as u32
                        } else {
                            self.m_rel_sample1
                        },
                        m_rel_sample2: if cat == 2 {
                            (self.m_rel_sample2 + 1) as u32
                        } else {
                            self.m_rel_sample2
                        },
                        m_rel_sample3: if cat == 3 {
                            (self.m_rel_sample3 + 1) as u32
                        } else {
                            self.m_rel_sample3
                        },
                        m_rel_sample4: if cat == 4 {
                            (self.m_rel_sample4 + 1) as u32
                        } else {
                            self.m_rel_sample4
                        },
                        m_rel_sample5: if cat == 5 {
                            (self.m_rel_sample5 + 1) as u32
                        } else {
                            self.m_rel_sample5
                        },
                        m_last_char_order: order,
                        ..self
                    };
                    bumped
                }
            } else {
                JapaneseContextAnalysis { m_last_char_order: order, ..self }
            }
        }
    }

    /// A fresh analyzer over the given model.
    pub fn new(model: ContextModel) -> (r: JapaneseContextAnalysis)
        requires
            model.wf(),
        ensures
            r.wf(),
            r.model == model,
            r.m_total_rel == 0,
            r.m_rel_sample0 == 0,
            r.m_rel_sample1 == 0,
            r.m_rel_sample2 == 0,
            r.m_rel_sample3 == 0,
            r.m_rel_sample4 == 0,
            r.m_rel_sample5 == 0,
            r.m_last_char_order == CTX_NO_ORDER,
            r.m_done == false,
    {
        JapaneseContextAnalysis {
            model,
            m_total_rel: 0,
            m_rel_sample0: 0,
            m_rel_sample1: 0,
            m_rel_sample2: 0,
            m_rel_sample3: 0,
            m_rel_sample4: 0,
            m_rel_sample5: 0,
            m_last_char_order: CTX_NO_ORDER,
            m_done: false,
        }
    }

    /// Returns the session to its just-constructed state; the model is
    /// untouched.
    pub fn reset(&mut self)
        requires
            old(self).wf(),
        ensures
            final(self).wf(),
            *final(self) == (JapaneseContextAnalysis {
                m_total_rel: 0u32,
                m_rel_sample0: 0u32,
                m_rel_sample1: 0u32,
                m_rel_sample2: 0u32,
                m_rel_sample3: 0u32,
                m_rel_sample4: 0u32,
                m_rel_sample5: 0u32,
                m_last_char_order: CTX_NO_ORDER,
                m_done: false,
                ..*old(self)
            }),
    {
        self.m_total_rel = 0;
        self.m_rel_sample0 = 0;
        self.m_rel_sample1 = 0;
        self.m_rel_sample2 = 0;
        self.m_rel_sample3 = 0;
        self.m_rel_sample4 = 0;
        self.m_rel_sample5 = 0;
        self.m_last_char_order = CTX_NO_ORDER;
        self.m_done = false;
    }

    /// Absorbs one character given as its (up to) two bytes and its detected
    /// length.
    pub fn feed(&mut self, b0: u8, b1: u8, char_len: usize)
        requires
            old(self).wf(),
        ensures
            final(self).wf(),
            *final(self) == old(self).spec_feed(b0, b1, char_len),
    {
        if self.m_done {
            return ;
        }
        let order: u8 = if char_len == 2 && b0 == self.model.lead_byte && self.model.trail_lo <= b1
            && b1 <= self.model.trail_hi {
            b1 - self.model.trail_lo
        } else {
            CTX_NO_ORDER
        };
        if order != CTX_NO_ORDER && self.m_last_char_order != CTX_NO_ORDER {
            self.m_total_rel = self.m_total_rel + 1;
            if self.m_total_rel > CTX_MAX_REL_THRESHOLD {
                self.m_done = true;
            } else {
                proof {
                    assert(0 <= self.m_last_char_order as int * self.model.order_count as int
                        && (self.m_last_char_order as int * self.model.order_count as int
                        + order as int) < self.model.order_count as int
                        * self.model.order_count as int && self.model.order_count as int
                        * self.model.order_count as int <= 65025) by (nonlinear_arith)
                        requires
                            0 <= self.m_last_char_order as int,
                            self.m_last_char_order < self.model.order_count,
                            0 <= order as int,
                            order < self.model.order_count,
                            self.model.order_count <= 255,
                    ;
                }
                let idx: usize = (self.m_last_char_order as usize) * (self.model.order_count
                    as usize) + (order as usize);
                let cat: u8 = self.model.category_table[idx];
                if cat == 0 {
                    self.m_rel_sample0 = self.m_rel_sample0 + 1;
                } else if cat == 1 {
                    self.m_rel_sample1 = self.m_rel_sample1 + 1;
                } else if cat == 2 {
                    self.m_rel_sample2 = self.m_rel_sample2 + 1;
                } else if cat == 3 {
                    self.m_rel_sample3 = self.m_rel_sample3 + 1;
                } else if cat == 4 {
                    self.m_rel_sample4 = self.m_rel_sample4 + 1;
                } else {
                    self.m_rel_sample5 = self.m_rel_sample5 + 1;
                }
                self.m_last_char_order = order;
            }
        } else {
            self.m_last_char_order = order;
        }
    }

    /// Whether enough relevant sequences have been seen for an early verdict.
    pub fn got_enough_data(&self) -> (r: bool)
        ensures
            r == (self.m_total_rel > CTX_ENOUGH_REL_THRESHOLD),
    {
        self.m_total_rel > CTX_ENOUGH_REL_THRESHOLD
    }

    /// The share of legal context pairs, in parts per million; `None` while
    /// too few relevant sequences have been seen to have an opinion.
    pub fn get_confidence(&self) -> (r: Option<u32>)
        requires
            self.wf(),
        ensures
            r == spec_ctx_confidence(self.m_total_rel, self.m_rel_sample0),
    {
        if self.m_total_rel > CTX_MINIMUM_DATA_THRESHOLD {
            let diff: u32 = self.m_total_rel - self.m_rel_sample0;
            proof {
                assert(diff as u64 * CONF_ONE as u64 <= 1001u64 * 1000000u64) by (nonlinear_arith)
                    requires
                        diff <= 1001,
                ;
            }
            let num: u64 = (diff as u64) * (CONF_ONE as u64);
            Some((num / (self.m_total_rel as u64)) as u32)
        } else {
            None
        }
    }

    /// The charset name resolved by this analyzer.
    pub fn get_charset(&self) -> (r: String)
        ensures
            r@ == self.model.charset_name@,
    {
        self.model.charset_name.clone()
    }
}

/// The context confidence over the counters: the legal-pair share of the
/// total, or no opinion below the minimum data threshold.
pub open spec fn spec_ctx_confidence(total_rel: u32, rel_sample0: u32) -> Option<u32> {
    if total_rel > CTX_MINIMUM_DATA_THRESHOLD {
        Some(
            (((total_rel as int - rel_sample0 as int) * CONF_ONE as int) / total_rel as int) as u32,
        )
    } else {
        None
    }
}

} // verus!
