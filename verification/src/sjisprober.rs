//! Context-aware multi-byte detector: a multi-byte detector that, at every
//! character boundary, also feeds the character to a Japanese context
//! analyzer scored separately. The reported confidence is the larger of the
//! two scores, and the charset label is resolved by the context analyzer.

use vstd::prelude::*;

use crate::CONF_POSITIVE_SHORTCUT;
use crate::chardistribution::CharDistributionAnalysis;
use crate::chardistribution::spec_distribution_confidence;
use crate::codingstatemachine::CodingStateMachine;
use crate::codingstatemachine::spec_byte_pos_after;
use crate::codingstatemachine::spec_char_len_after;
use crate::codingstatemachine::spec_next_state;
use crate::enums::MACHINE_ERROR;
use crate::enums::MACHINE_ITS_ME;
use crate::enums::MACHINE_START;
use crate::enums::ProbingState;
use crate::jpcntx::CTX_ENOUGH_REL_THRESHOLD;
use crate::jpcntx::JapaneseContextAnalysis;
use crate::jpcntx::spec_ctx_confidence;
use crate::mbcharsetprober::MultiByteCharsetProber;

verus! {

/// A context-aware multi-byte detector session: the generic multi-byte
/// detector plus the context analyzer fed with the same characters.
pub struct SJISProber {
    /// The structural and distribution part of the detector.
    pub m_base: MultiByteCharsetProber,
    /// The context analyzer scored separately.
    pub m_context_analyzer: JapaneseContextAnalysis,
}

/// The larger of the distribution confidence and the context confidence;
/// the distribution score alone while the context analyzer has no opinion.
pub open spec fn spec_sjis_confidence(s: SJISProber) -> u32 {
    let a = spec_distribution_confidence(
        s.m_base.m_distribution_analyzer.m_total_chars,
        s.m_base.m_distribution_analyzer.m_freq_chars,
        s.m_base.m_distribution_analyzer.m_ratio_num,
        s.m_base.m_distribution_analyzer.m_ratio_den,
    );
    match spec_ctx_confidence(
        s.m_context_analyzer.m_total_rel,
        s.m_context_analyzer.m_rel_sample0,
    ) {
        Some(b) => if a > b {
            a
        } else {
            b
        },
        None => a,
    }
}

impl SJISProber {
    /// Both parts are well formed.
    pub open spec fn wf(&self) -> bool {
        &&& self.m_base.wf()
        &&& self.m_context_analyzer.wf()
    }

    /// The session after the byte loop of one feed call has consumed
    /// `bytes[i..]`: as the multi-byte scan, with every completed character
    /// also handed to the context analyzer.
    pub open spec fn spec_scan(self, bytes: Seq<u8>, i: nat) -> SJISProber
        decreases bytes.len() - i,
    {
        if i >= bytes.len() {
            self
        } else {
            let b = bytes[i as int];
            let base = self.m_base;
            let m = base.m_coding_sm.m_model;
            let st = base.m_coding_sm.m_curr_state;
            let ns = spec_next_state(m, st, b);
            let sm2 = CodingStateMachine {
                m_curr_state: ns,
                m_curr_char_len: spec_char_len_after(m, st, base.m_coding_sm.m_curr_char_len, b),
                m_curr_byte_pos: spec_byte_pos_after(st, base.m_coding_sm.m_curr_byte_pos),
                ..base.m_coding_sm
            };
            if ns == MACHINE_ERROR {
                SJISProber {
                    m_base: MultiByteCharsetProber {
                        m_state: ProbingState::NotMe,
                        m_coding_sm: sm2,
                        ..base
                    },
                    ..self
                }
            } else if ns == MACHINE_ITS_ME {
                SJISProber {
                    m_base: MultiByteCharsetProber {
                        m_state: ProbingState::FoundIt,
                        m_coding_sm: sm2,
                        ..base
                    },
                    ..self
                }
            } else if ns == MACHINE_START {
                let p0 = if i == 0 {
                    self.m_base.m_last_char_0
                } else {
                    bytes[i - 1]
                };
                let p1 = bytes[i as int];
                let next = SJISProber {
                    m_base: MultiByteCharsetProber {
                        m_coding_sm: sm2,
                        m_distribution_analyzer: base.m_distribution_analyzer.spec_feed(
                            seq![p0, p1],
                            sm2.m_curr_char_len as usize,
                        ),
                        m_last_char_1: if i == 0 {
                            bytes[0]
                        } else {
                            base.m_last_char_1
                        },
                        ..base
                    },
                    m_context_analyzer: self.m_context_analyzer.spec_feed(
                        p0,
                        p1,
                        sm2.m_curr_char_len as usize,
                    ),
                };
                next.spec_scan(bytes, i + 1)
            } else {
                SJISProber {
                    m_base: MultiByteCharsetProber { m_coding_sm: sm2, ..base },
                    ..self
                }.spec_scan(bytes, i + 1)
            }
        }
    }

    /// The session after one whole feed call: the byte loop, the carry byte
    /// update, then the early-exit shortcut, which here asks the context
    /// analyzer for enough data and the combined confidence for decisiveness.
    pub open spec fn spec_feed(self, bytes: Seq<u8>) -> SJISProber {
        let t = self.spec_scan(bytes, 0);
        let t2 = if bytes.len() > 0 {
            SJISProber {
                m_base: MultiByteCharsetProber {
                    m_last_char_0: bytes[bytes.len() - 1],
                    ..t.m_base
                },
                ..t
            }
        } else {
            t
        };
        if t2.m_base.m_state == ProbingState::Detecting && t2.m_context_analyzer.m_total_rel
            > CTX_ENOUGH_REL_THRESHOLD && spec_sjis_confidence(t2) > CONF_POSITIVE_SHORTCUT {
            SJISProber {
                m_base: MultiByteCharsetProber { m_state: ProbingState::FoundIt, ..t2.m_base },
                ..t2
            }
        } else {
            t2
        }
    }

    /// A fresh detector over the given structural model, distribution
    /// analyzer and context analyzer, reporting the given language.
    pub fn new(
        coding_sm: CodingStateMachine,
        analyzer: CharDistributionAnalysis,
        context_analyzer: JapaneseContextAnalysis,
        language: String,
    ) -> (r: SJISProber)
        requires
            coding_sm.wf(),
            analyzer.wf(),
            context_analyzer.wf(),
        ensures
            r.wf(),
            r.m_base.m_state == ProbingState::Detecting,
            r.m_base.m_coding_sm == coding_sm,
            r.m_base.m_distribution_analyzer == analyzer,
            r.m_base.m_last_char_0 == 0u8,
            r.m_base.m_last_char_1 == 0u8,
            r.m_base.m_language@ == language@,
            r.m_context_analyzer == context_analyzer,
    {
        let charset = String::new();
        SJISProber {
            m_base: MultiByteCharsetProber::new(coding_sm, analyzer, charset, language),
            m_context_analyzer: context_analyzer,
        }
    }

    /// Returns the session to its just-constructed state; models and labels
    /// are untouched.
    pub fn reset(&mut self)
        requires
            old(self).wf(),
        ensures
            final(self).wf(),
            final(self).m_base == (MultiByteCharsetProber {
                m_state: ProbingState::Detecting,
                m_coding_sm: CodingStateMachine {
                    m_curr_state: crate::enums::MACHINE_START,
                    ..old(self).m_base.m_coding_sm
                },
                m_distribution_analyzer: CharDistributionAnalysis {
                    m_total_chars: 0u32,
                    m_freq_chars: 0u32,
                    ..old(self).m_base.m_distribution_analyzer
                },
                m_last_char_0: 0u8,
                m_last_char_1: 0u8,
                ..old(self).m_base
            }),
            final(self).m_context_analyzer == (JapaneseContextAnalysis {
                m_total_rel: 0u32,
                m_rel_sample0: 0u32,
                m_rel_sample1: 0u32,
                m_rel_sample2: 0u32,
                m_rel_sample3: 0u32,
                m_rel_sample4: 0u32,
                m_rel_sample5: 0u32,
                m_last_char_order: crate::jpcntx::CTX_NO_ORDER,
                m_done: false,
                ..old(self).m_context_analyzer
            }),
    {
        self.m_base.reset();
        self.m_context_analyzer.reset();
    }

    /// Scans one buffer: steps the state machine on every byte and feeds each
    /// completed character to both analyzers, then applies the context-gated
    /// early-exit shortcut.
    pub fn feed(&mut self, byte_str: &[u8]) -> (r: ProbingState)
        requires
            old(self).wf(),
        ensures
            final(self).wf(),
            *final(self) == old(self).spec_feed(byte_str@),
            r == final(self).m_base.m_state,
    {
        let ghost orig = *old(self);
        let mut i: usize = 0;
        let mut stopped: bool = false;
        while i < byte_str.len() && !stopped
            invariant
                i <= byte_str@.len(),
                self.wf(),
                !stopped ==> orig.spec_scan(byte_str@, 0) == self.spec_scan(byte_str@, i as nat),
                stopped ==> *self == orig.spec_scan(byte_str@, 0),
            decreases byte_str@.len() - i + (if stopped { 0int } else { 1int }),
        {
            let b = byte_str[i];
            let ns = self.m_base.m_coding_sm.next_state(b);
            if ns == MACHINE_ERROR {
                self.m_base.m_state = ProbingState::NotMe;
                stopped = true;
            } else if ns == MACHINE_ITS_ME {
                self.m_base.m_state = ProbingState::FoundIt;
                stopped = true;
            } else if ns == MACHINE_START {
                let char_len = self.m_base.m_coding_sm.get_current_charlen();
                let p0: u8;
                let p1: u8 = b;
                if i == 0 {
                    p0 = self.m_base.m_last_char_0;
                    self.m_base.m_last_char_1 = b;
                } else {
                    p0 = byte_str[i - 1];
                }
                self.m_context_analyzer.feed(p0, p1, char_len);
                let pair: [u8; 2] = [p0, p1];
                self.m_base.m_distribution_analyzer.feed(pair.as_slice(), char_len);
                proof {
                    assert(pair@ =~= seq![p0, p1]);
                }
                i = i + 1;
            } else {
                i = i + 1;
            }
        }
        if byte_str.len() > 0 {
            self.m_base.m_last_char_0 = byte_str[byte_str.len() - 1];
        }
        if self.m_base.m_state == ProbingState::Detecting
            && self.m_context_analyzer.got_enough_data() {
            let conf = self.get_confidence();
            if conf > CONF_POSITIVE_SHORTCUT {
                self.m_base.m_state = ProbingState::FoundIt;
            }
        }
        self.m_base.m_state
    }

    /// The charset name resolved by the context analyzer.
    pub fn get_charset(&self) -> (r: String)
        ensures
            r@ == self.m_context_analyzer.model.charset_name@,
    {
        self.m_context_analyzer.get_charset()
    }

    /// The larger of the distribution and the context confidence.
    pub fn get_confidence(&self) -> (r: u32)
        requires
            self.wf(),
        ensures
            r == spec_sjis_confidence(*self),
    {
        let a = self.m_base.get_confidence();
        match self.m_context_analyzer.get_confidence() {
            Some(b) => if a > b {
                a
            } else {
                b
            },
            None => a,
        }
    }

    /// The language label this detector stands for.
    pub fn get_language(&self) -> (r: String)
        ensures
            r@ == self.m_base.m_language@,
    {
        self.m_base.get_language()
    }

    /// The current verdict without scanning anything.
    pub fn get_state(&self) -> (r: ProbingState)
        ensures
            r == self.m_base.m_state,
    {
        self.m_base.m_state
    }
}

/// A session with both carry bytes blanked: the part of the session that
/// future behaviour and every report depend on. The second carry byte is
/// write-only state, read back only within the very statement that sets it.
pub open spec fn sjis_core(s: SJISProber) -> SJISProber {
    SJISProber {
        m_base: MultiByteCharsetProber { m_last_char_0: 0u8, m_last_char_1: 0u8, ..s.m_base },
        ..s
    }
}

/// A session with only the second carry byte blanked.
pub open spec fn sjis_obs(s: SJISProber) -> SJISProber {
    SJISProber { m_base: MultiByteCharsetProber { m_last_char_1: 0u8, ..s.m_base }, ..s }
}

/// The byte loop never touches the carried context byte.
proof fn lemma_sjis_scan_frame(s: SJISProber, bytes: Seq<u8>, i: nat)
    ensures
        s.spec_scan(bytes, i).m_base.m_last_char_0 == s.m_base.m_last_char_0,
    decreases bytes.len() - i,
{
    if i < bytes.len() {
        let b = bytes[i as int];
        let m = s.m_base.m_coding_sm.m_model;
        let st = s.m_base.m_coding_sm.m_curr_state;
        let ns = spec_next_state(m, st, b);
        if ns == MACHINE_ERROR || ns == MACHINE_ITS_ME {
        } else {
            lemma_sjis_scan_frame(sjis_step(s, bytes, i), bytes, i + 1);
        }
    }
}

/// The stepped session at a non-terminal transition, as the scan builds it.
spec fn sjis_step(s: SJISProber, bytes: Seq<u8>, i: nat) -> SJISProber {
    let b = bytes[i as int];
    let base = s.m_base;
    let m = base.m_coding_sm.m_model;
    let st = base.m_coding_sm.m_curr_state;
    let ns = spec_next_state(m, st, b);
    let sm2 = CodingStateMachine {
        m_curr_state: ns,
        m_curr_char_len: spec_char_len_after(m, st, base.m_coding_sm.m_curr_char_len, b),
        m_curr_byte_pos: spec_byte_pos_after(st, base.m_coding_sm.m_curr_byte_pos),
        ..base.m_coding_sm
    };
    if ns == MACHINE_START {
        let p0 = if i == 0 {
            s.m_base.m_last_char_0
        } else {
            bytes[i - 1]
        };
        let p1 = bytes[i as int];
        SJISProber {
            m_base: MultiByteCharsetProber {
                m_coding_sm: sm2,
                m_distribution_analyzer: base.m_distribution_analyzer.spec_feed(
                    seq![p0, p1],
                    sm2.m_curr_char_len as usize,
                ),
                m_last_char_1: if i == 0 {
                    bytes[0]
                } else {
                    base.m_last_char_1
                },
                ..base
            },
            m_context_analyzer: s.m_context_analyzer.spec_feed(p0, p1, sm2.m_curr_char_len as usize),
        }
    } else {
        SJISProber { m_base: MultiByteCharsetProber { m_coding_sm: sm2, ..base }, ..s }
    }
}

/// Scanning picks up where it left off: with the context byte carried over
/// the boundary, the scan of a concatenation from the boundary matches the
/// scan of the second chunk from its start, on everything but the carry
/// bytes.
proof fn lemma_sjis_scan_shift(u: SJISProber, v: SJISProber, a: Seq<u8>, b: Seq<u8>, k: nat)
    requires
        k <= b.len(),
        a.len() > 0,
        sjis_core(u) == sjis_core(v),
        k == 0 ==> v.m_base.m_last_char_0 == a[a.len() - 1],
    ensures
        sjis_core(u.spec_scan(a + b, a.len() + k)) == sjis_core(v.spec_scan(b, k)),
    decreases b.len() - k,
{
    assert((a + b).len() == a.len() + b.len());
    if k < b.len() {
        assert((a + b)[a.len() + k as int] == b[k as int]);
        let byte = b[k as int];
        let m = u.m_base.m_coding_sm.m_model;
        let st = u.m_base.m_coding_sm.m_curr_state;
        let ns = spec_next_state(m, st, byte);
        if ns == MACHINE_ERROR || ns == MACHINE_ITS_ME {
        } else {
            let u2 = sjis_step(u, a + b, (a.len() + k) as nat);
            let v2 = sjis_step(v, b, k);
            if ns == MACHINE_START {
                assert((a + b)[a.len() + k as int - 1] == (if k == 0 {
                    a[a.len() - 1]
                } else {
                    b[k - 1]
                }));
                assert(sjis_core(u2) == sjis_core(v2));
            } else {
                assert(sjis_core(u2) == sjis_core(v2));
            }
            assert(u.spec_scan(a + b, a.len() + k) == u2.spec_scan(a + b, a.len() + (k + 1)));
            assert(v.spec_scan(b, k) == v2.spec_scan(b, k + 1));
            lemma_sjis_scan_shift(u2, v2, a, b, k + 1);
        }
    }
}

/// While no verdict falls inside the first chunk, scanning the concatenation
/// matches scanning the first chunk and then, with the context byte carried,
/// the second, on everything but the carry bytes.
proof fn lemma_sjis_scan_split(s: SJISProber, a: Seq<u8>, b: Seq<u8>, i: nat)
    requires
        i <= a.len(),
        a.len() > 0,
        s.m_base.m_state == ProbingState::Detecting,
        s.spec_scan(a, i).m_base.m_state == ProbingState::Detecting,
    ensures
        sjis_core(s.spec_scan(a + b, i)) == sjis_core(
            (SJISProber {
                m_base: MultiByteCharsetProber {
                    m_last_char_0: a[a.len() - 1],
                    ..s.spec_scan(a, i).m_base
                },
                ..s.spec_scan(a, i)
            }).spec_scan(b, 0),
        ),
    decreases a.len() - i,
{
    if i >= a.len() {
        lemma_sjis_scan_shift(
            s,
            SJISProber {
                m_base: MultiByteCharsetProber { m_last_char_0: a[a.len() - 1], ..s.m_base },
                ..s
            },
            a,
            b,
            0,
        );
    } else {
        assert((a + b)[i as int] == a[i as int]);
        let byte = a[i as int];
        let m = s.m_base.m_coding_sm.m_model;
        let st = s.m_base.m_coding_sm.m_curr_state;
        let ns = spec_next_state(m, st, byte);
        if ns == MACHINE_ERROR || ns == MACHINE_ITS_ME {
            // The scan of the first chunk would have settled a verdict.
            assert(false);
        } else {
            let next = sjis_step(s, a, i);
            assert(sjis_step(s, a + b, i) == next);
            assert(s.spec_scan(a + b, i) == next.spec_scan(a + b, i + 1));
            assert(s.spec_scan(a, i) == next.spec_scan(a, i + 1));
            lemma_sjis_scan_split(next, a, b, i + 1);
        }
    }
}

/// Split feeding: while the detector is still undecided after the first
/// chunk, feeding a buffer in two chunks leaves the session as feeding the
/// concatenation at once, up to the write-only second carry byte.
pub proof fn lemma_sjis_feed_split(s: SJISProber, a: Seq<u8>, b: Seq<u8>)
    requires
        s.m_base.m_state == ProbingState::Detecting,
        s.spec_feed(a).m_base.m_state == ProbingState::Detecting,
    ensures
        sjis_obs(s.spec_feed(a).spec_feed(b)) == sjis_obs(s.spec_feed(a + b)),
{
    if a.len() == 0 {
        assert(a + b =~= b);
        assert(s.spec_feed(a) == s);
    } else {
        let t = s.spec_scan(a, 0);
        assert(t.m_base.m_state == ProbingState::Detecting);
        let t2 = SJISProber {
            m_base: MultiByteCharsetProber { m_last_char_0: a[a.len() - 1], ..t.m_base },
            ..t
        };
        assert(s.spec_feed(a) == t2);
        lemma_sjis_scan_split(s, a, b, 0);
        lemma_sjis_scan_frame(t2, b, 0);
        if b.len() == 0 {
            assert(a + b =~= a);
        } else {
            assert((a + b)[(a + b).len() - 1] == b[b.len() - 1]);
        }
    }
}

} // verus!
