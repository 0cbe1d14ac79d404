//! Generic multi-byte charset detector: a byte-class state machine paired
//! with a distribution analyzer. The same type, configured with different
//! models and labels, serves every double-byte encoding.

use vstd::prelude::*;

use crate::CONF_POSITIVE_SHORTCUT;
use crate::chardistribution::CharDistributionAnalysis;
use crate::chardistribution::ENOUGH_DATA_THRESHOLD;
use crate::chardistribution::spec_distribution_confidence;
use crate::codingstatemachine::CodingStateMachine;
use crate::codingstatemachine::spec_byte_pos_after;
use crate::codingstatemachine::spec_char_len_after;
use crate::codingstatemachine::spec_next_state;
use crate::enums::MACHINE_ERROR;
use crate::enums::MACHINE_ITS_ME;
use crate::enums::MACHINE_START;
use crate::enums::ProbingState;

verus! {

/// A multi-byte detector session: a probing state, the coding state machine,
/// the distribution analyzer, a 2-byte carry buffer crossing feed calls, and
/// the static labels reported on success.
pub struct MultiByteCharsetProber {
    /// The current verdict.
    pub m_state: ProbingState,
    /// The structural validator of the encoding.
    pub m_coding_sm: CodingStateMachine,
    /// The statistical analyzer of the encoding.
    pub m_distribution_analyzer: CharDistributionAnalysis,
    /// The last byte of the previous feed call: the carried context byte.
    pub m_last_char_0: u8,
    /// The first byte of the current feed call once a character boundary is
    /// seen at it.
    pub m_last_char_1: u8,
    /// Charset name reported by this detector.
    pub m_charset: String,
    /// Language label reported by this detector.
    pub m_language: String,
}

impl MultiByteCharsetProber {
    /// The machine and the analyzer are well formed.
    pub open spec fn wf(&self) -> bool {
        &&& self.m_coding_sm.wf()
        &&& self.m_distribution_analyzer.wf()
    }

    /// The session after the byte loop of one feed call has consumed
    /// `bytes[i..]`: each byte steps the machine; a character boundary feeds
    /// the previous two raw bytes to the analyzer; ERROR and ITS_ME settle
    /// the verdict and stop the loop.
    pub open spec fn spec_scan(self, bytes: Seq<u8>, i: nat) -> MultiByteCharsetProber
        decreases bytes.len() - i,
    {
        if i >= bytes.len() {
            self
        } else {
            let b = bytes[i as int];
            let m = self.m_coding_sm.m_model;
            let st = self.m_coding_sm.m_curr_state;
            let ns = spec_next_state(m, st, b);
            let sm2 = CodingStateMachine {
                m_curr_state: ns,
                m_curr_char_len: spec_char_len_after(m, st, self.m_coding_sm.m_curr_char_len, b),
                m_curr_byte_pos: spec_byte_pos_after(st, self.m_coding_sm.m_curr_byte_pos),
                ..self.m_coding_sm
            };
            if ns == MACHINE_ERROR {
                MultiByteCharsetProber { m_state: ProbingState::NotMe, m_coding_sm: sm2, ..self }
            } else if ns == MACHINE_ITS_ME {
                MultiByteCharsetProber { m_state: ProbingState::FoundIt, m_coding_sm: sm2, ..self }
            } else if ns == MACHINE_START {
                let pair = if i == 0 {
                    seq![self.m_last_char_0, bytes[0]]
                } else {
                    seq![bytes[i - 1], bytes[i as int]]
                };
                let next = MultiByteCharsetProber {
                    m_coding_sm: sm2,
                    m_distribution_analyzer: self.m_distribution_analyzer.spec_feed(
                        pair,
                        sm2.m_curr_char_len as usize,
                    ),
                    m_last_char_1: if i == 0 {
                        bytes[0]
                    } else {
                        self.m_last_char_1
                    },
                    ..self
                };
                next.spec_scan(bytes, i + 1)
            } else {
                MultiByteCharsetProber { m_coding_sm: sm2, ..self }.spec_scan(bytes, i + 1)
            }
        }
    }

    /// The session after one whole feed call: the byte loop, then the carry
    /// byte update, then the early-exit shortcut on decisive confidence.
    pub open spec fn spec_feed(self, bytes: Seq<u8>) -> MultiByteCharsetProber {
        let t = self.spec_scan(bytes, 0);
        let t2 = if bytes.len() > 0 {
            MultiByteCharsetProber { m_last_char_0: bytes[bytes.len() - 1], ..t }
        } else {
            t
        };
        if t2.m_state == ProbingState::Detecting && t2.m_distribution_analyzer.m_total_chars
            > ENOUGH_DATA_THRESHOLD && spec_distribution_confidence(
            t2.m_distribution_analyzer.m_total_chars,
            t2.m_distribution_analyzer.m_freq_chars,
            t2.m_distribution_analyzer.m_ratio_num,
            t2.m_distribution_analyzer.m_ratio_den,
        ) > CONF_POSITIVE_SHORTCUT {
            MultiByteCharsetProber { m_state: ProbingState::FoundIt, ..t2 }
        } else {
            t2
        }
    }

    /// A fresh detector over the given structural and statistical models,
    /// reporting the given labels.
    pub fn new(
        coding_sm: CodingStateMachine,
        analyzer: CharDistributionAnalysis,
        charset: String,
        language: String,
    ) -> (r: MultiByteCharsetProber)
        requires
            coding_sm.wf(),
            analyzer.wf(),
        ensures
            r.wf(),
            r.m_state == ProbingState::Detecting,
            r.m_coding_sm == coding_sm,
            r.m_distribution_analyzer == analyzer,
            r.m_last_char_0 == 0u8,
            r.m_last_char_1 == 0u8,
            r.m_charset@ == charset@,
            r.m_language@ == language@,
    {
        MultiByteCharsetProber {
            m_state: ProbingState::Detecting,
            m_coding_sm: coding_sm,
            m_distribution_analyzer: analyzer,
            m_last_char_0: 0,
            m_last_char_1: 0,
            m_charset: charset,
            m_language: language,
        }
    }

    /// Returns the session to its just-constructed state; models and labels
    /// are untouched.
    pub fn reset(&mut self)
        requires
            old(self).wf(),
        ensures
            final(self).wf(),
            *final(self) == (MultiByteCharsetProber {
                m_state: ProbingState::Detecting,
                m_coding_sm: CodingStateMachine {
                    m_curr_state: MACHINE_START,
                    ..old(self).m_coding_sm
                },
                m_distribution_analyzer: CharDistributionAnalysis {
                    m_total_chars: 0,
                    m_freq_chars: 0,
                    ..old(self).m_distribution_analyzer
                },
                m_last_char_0: 0u8,
                m_last_char_1: 0u8,
                ..*old(self)
            }),
    {
        self.m_state = ProbingState::Detecting;
        self.m_last_char_0 = 0;
        self.m_last_char_1 = 0;
        self.m_coding_sm.reset();
        self.m_distribution_analyzer.reset();
    }

    /// Scans one buffer: steps the machine on every byte, feeds character
    /// boundaries to the analyzer, and applies the early-exit shortcut.
    pub fn feed(&mut self, byte_str: &[u8]) -> (r: ProbingState)
        requires
            old(self).wf(),
        ensures
            final(self).wf(),
            *final(self) == old(self).spec_feed(byte_str@),
            r == final(self).m_state,
    {
        let ghost orig = *old(self);
        let mut i: usize = 0;
        let mut stopped: bool = false;
        while i < byte_str.len() && !stopped
            invariant
                i <= byte_str@.len(),
                self.wf(),
                !stopped ==> orig.spec_scan(byte_str@, 0) == self.spec_scan(byte_str@, i as nat),
                stopped ==> *self == orig.spec_scan(byte_str@, 0),
                !stopped && i > 0 ==> byte_str@.len() > 0,
            decreases byte_str@.len() - i + (if stopped { 0int } else { 1int }),
        {
            let ghost before = *self;
            let b = byte_str[i];
            let ns = self.m_coding_sm.next_state(b);
            if ns == MACHINE_ERROR {
                self.m_state = ProbingState::NotMe;
                stopped = true;
            } else if ns == MACHINE_ITS_ME {
                self.m_state = ProbingState::FoundIt;
                stopped = true;
            } else if ns == MACHINE_START {
                let char_len = self.m_coding_sm.get_current_charlen();
                if i == 0 {
                    self.m_last_char_1 = b;
                    let pair: [u8; 2] = [self.m_last_char_0, b];
                    self.m_distribution_analyzer.feed(pair.as_slice(), char_len);
                    proof {
                        assert(pair@ =~= seq![before.m_last_char_0, byte_str@[0]]);
                    }
                } else {
                    let pair: [u8; 2] = [byte_str[i - 1], b];
                    self.m_distribution_analyzer.feed(pair.as_slice(), char_len);
                    proof {
                        assert(pair@ =~= seq![byte_str@[i - 1], byte_str@[i as int]]);
                    }
                }
                i = i + 1;
            } else {
                i = i + 1;
            }
        }
        if byte_str.len() > 0 {
            self.m_last_char_0 = byte_str[byte_str.len() - 1];
        }
        let enoughdata: bool = self.m_distribution_analyzer.got_enough_data();
        if self.m_state == ProbingState::Detecting && enoughdata {
            let conf = self.m_distribution_analyzer.get_confidence();
            if conf > CONF_POSITIVE_SHORTCUT {
                self.m_state = ProbingState::FoundIt;
            }
        }
        self.m_state
    }

    /// The charset name this detector stands for.
    pub fn get_charset(&self) -> (r: String)
        ensures
            r@ == self.m_charset@,
    {
        self.m_charset.clone()
    }

    /// The distribution analyzer's confidence over everything seen so far.
    pub fn get_confidence(&self) -> (r: u32)
        requires
            self.wf(),
        ensures
            r == spec_distribution_confidence(
                self.m_distribution_analyzer.m_total_chars,
                self.m_distribution_analyzer.m_freq_chars,
                self.m_distribution_analyzer.m_ratio_num,
                self.m_distribution_analyzer.m_ratio_den,
            ),
    {
        self.m_distribution_analyzer.get_confidence()
    }

    /// The language label this detector stands for.
    pub fn get_language(&self) -> (r: String)
        ensures
            r@ == self.m_language@,
    {
        self.m_language.clone()
    }

    /// The current verdict without scanning anything.
    pub fn get_state(&self) -> (r: ProbingState)
        ensures
            r == self.m_state,
    {
        self.m_state
    }
}

/// A session with both carry bytes blanked: the part of the session that
/// future behaviour and every report depend on. The second carry byte is
/// write-only state, read back only within the very statement that sets it.
pub open spec fn mb_core(s: MultiByteCharsetProber) -> MultiByteCharsetProber {
    MultiByteCharsetProber { m_last_char_0: 0u8, m_last_char_1: 0u8, ..s }
}

/// A session with only the second carry byte blanked.
pub open spec fn mb_obs(s: MultiByteCharsetProber) -> MultiByteCharsetProber {
    MultiByteCharsetProber { m_last_char_1: 0u8, ..s }
}

/// The byte loop never touches the carried context byte or the labels.
proof fn lemma_mb_scan_frame(s: MultiByteCharsetProber, bytes: Seq<u8>, i: nat)
    ensures
        s.spec_scan(bytes, i).m_last_char_0 == s.m_last_char_0,
    decreases bytes.len() - i,
{
    if i < bytes.len() {
        let b = bytes[i as int];
        let m = s.m_coding_sm.m_model;
        let st = s.m_coding_sm.m_curr_state;
        let ns = spec_next_state(m, st, b);
        if ns == MACHINE_ERROR || ns == MACHINE_ITS_ME {
        } else {
            let sm2 = CodingStateMachine {
                m_curr_state: ns,
                m_curr_char_len: spec_char_len_after(m, st, s.m_coding_sm.m_curr_char_len, b),
                m_curr_byte_pos: spec_byte_pos_after(st, s.m_coding_sm.m_curr_byte_pos),
                ..s.m_coding_sm
            };
            if ns == MACHINE_START {
                let pair = if i == 0 {
                    seq![s.m_last_char_0, bytes[0]]
                } else {
                    seq![bytes[i - 1], bytes[i as int]]
                };
                let next = MultiByteCharsetProber {
                    m_coding_sm: sm2,
                    m_distribution_analyzer: s.m_distribution_analyzer.spec_feed(
                        pair,
                        sm2.m_curr_char_len as usize,
                    ),
                    m_last_char_1: if i == 0 {
                        bytes[0]
                    } else {
                        s.m_last_char_1
                    },
                    ..s
                };
                lemma_mb_scan_frame(next, bytes, i + 1);
            } else {
                lemma_mb_scan_frame(MultiByteCharsetProber { m_coding_sm: sm2, ..s }, bytes, i + 1);
            }
        }
    }
}

/// Scanning picks up where it left off: with the context byte carried over
/// the boundary, the scan of a concatenation from the boundary matches the
/// scan of the second chunk from its start, on everything but the carry
/// bytes.
proof fn lemma_mb_scan_shift(
    u: MultiByteCharsetProber,
    v: MultiByteCharsetProber,
    a: Seq<u8>,
    b: Seq<u8>,
    k: nat,
)
    requires
        k <= b.len(),
        a.len() > 0,
        mb_core(u) == mb_core(v),
        k == 0 ==> v.m_last_char_0 == a[a.len() - 1],
    ensures
        mb_core(u.spec_scan(a + b, a.len() + k)) == mb_core(v.spec_scan(b, k)),
    decreases b.len() - k,
{
    assert((a + b).len() == a.len() + b.len());
    if k < b.len() {
        assert((a + b)[a.len() + k as int] == b[k as int]);
        let byte = b[k as int];
        let m = u.m_coding_sm.m_model;
        let st = u.m_coding_sm.m_curr_state;
        let ns = spec_next_state(m, st, byte);
        if ns == MACHINE_ERROR || ns == MACHINE_ITS_ME {
        } else {
            let sm2u = CodingStateMachine {
                m_curr_state: ns,
                m_curr_char_len: spec_char_len_after(m, st, u.m_coding_sm.m_curr_char_len, byte),
                m_curr_byte_pos: spec_byte_pos_after(st, u.m_coding_sm.m_curr_byte_pos),
                ..u.m_coding_sm
            };
            if ns == MACHINE_START {
                let pair = if k == 0 {
                    seq![a[a.len() - 1], byte]
                } else {
                    seq![b[k - 1], byte]
                };
                assert((a + b)[a.len() + k as int - 1] == pair[0]);
                let u2 = MultiByteCharsetProber {
                    m_coding_sm: sm2u,
                    m_distribution_analyzer: u.m_distribution_analyzer.spec_feed(
                        pair,
                        sm2u.m_curr_char_len as usize,
                    ),
                    m_last_char_1: u.m_last_char_1,
                    ..u
                };
                let v2 = MultiByteCharsetProber {
                    m_coding_sm: sm2u,
                    m_distribution_analyzer: v.m_distribution_analyzer.spec_feed(
                        pair,
                        sm2u.m_curr_char_len as usize,
                    ),
                    m_last_char_1: if k == 0 {
                        b[0]
                    } else {
                        v.m_last_char_1
                    },
                    ..v
                };
                assert(u.spec_scan(a + b, a.len() + k) == u2.spec_scan(a + b, a.len() + (k + 1)));
                assert(v.spec_scan(b, k) == v2.spec_scan(b, k + 1));
                lemma_mb_scan_shift(u2, v2, a, b, k + 1);
            } else {
                lemma_mb_scan_shift(
                    MultiByteCharsetProber { m_coding_sm: sm2u, ..u },
                    MultiByteCharsetProber { m_coding_sm: sm2u, m_last_char_1: v.m_last_char_1, m_last_char_0: v.m_last_char_0, ..v },
                    a,
                    b,
                    k + 1,
                );
            }
        }
    }
}

/// While no verdict falls inside the first chunk, scanning the concatenation
/// matches scanning the first chunk and then, with the context byte carried,
/// the second, on everything but the carry bytes.
proof fn lemma_mb_scan_split(s: MultiByteCharsetProber, a: Seq<u8>, b: Seq<u8>, i: nat)
    requires
        i <= a.len(),
        a.len() > 0,
        s.m_state == ProbingState::Detecting,
        s.spec_scan(a, i).m_state == ProbingState::Detecting,
    ensures
        mb_core(s.spec_scan(a + b, i)) == mb_core(
            (MultiByteCharsetProber { m_last_char_0: a[a.len() - 1], ..s.spec_scan(a, i) }).spec_scan(
                b,
                0,
            ),
        ),
    decreases a.len() - i,
{
    if i >= a.len() {
        lemma_mb_scan_shift(
            s,
            MultiByteCharsetProber { m_last_char_0: a[a.len() - 1], ..s },
            a,
            b,
            0,
        );
    } else {
        assert((a + b)[i as int] == a[i as int]);
        let byte = a[i as int];
        let m = s.m_coding_sm.m_model;
        let st = s.m_coding_sm.m_curr_state;
        let ns = spec_next_state(m, st, byte);
        if ns == MACHINE_ERROR || ns == MACHINE_ITS_ME {
            // The scan of the first chunk would have settled a verdict.
            assert(false);
        } else {
            let sm2 = CodingStateMachine {
                m_curr_state: ns,
                m_curr_char_len: spec_char_len_after(m, st, s.m_coding_sm.m_curr_char_len, byte),
                m_curr_byte_pos: spec_byte_pos_after(st, s.m_coding_sm.m_curr_byte_pos),
                ..s.m_coding_sm
            };
            if ns == MACHINE_START {
                let pair = if i == 0 {
                    seq![s.m_last_char_0, a[0]]
                } else {
                    seq![a[i - 1], a[i as int]]
                };
                assert((if i == 0 {
                    seq![s.m_last_char_0, (a + b)[0]]
                } else {
                    seq![(a + b)[i - 1], (a + b)[i as int]]
                }) =~= pair);
                let next = MultiByteCharsetProber {
                    m_coding_sm: sm2,
                    m_distribution_analyzer: s.m_distribution_analyzer.spec_feed(
                        pair,
                        sm2.m_curr_char_len as usize,
                    ),
                    m_last_char_1: if i == 0 {
                        a[0]
                    } else {
                        s.m_last_char_1
                    },
                    ..s
                };
                lemma_mb_scan_split(next, a, b, i + 1);
            } else {
                lemma_mb_scan_split(MultiByteCharsetProber { m_coding_sm: sm2, ..s }, a, b, i + 1);
            }
        }
    }
}

/// Split feeding: while the detector is still undecided after the first
/// chunk, feeding a buffer in two chunks leaves the session as feeding the
/// concatenation at once, up to the write-only second carry byte.
pub proof fn lemma_mb_feed_split(s: MultiByteCharsetProber, a: Seq<u8>, b: Seq<u8>)
    requires
        s.m_state == ProbingState::Detecting,
        s.spec_feed(a).m_state == ProbingState::Detecting,
    ensures
        mb_obs(s.spec_feed(a).spec_feed(b)) == mb_obs(s.spec_feed(a + b)),
{
    if a.len() == 0 {
        assert(a + b =~= b);
        assert(s.spec_feed(a) == s);
    } else {
        let t = s.spec_scan(a, 0);
        assert(t.m_state == ProbingState::Detecting);
        let t2 = MultiByteCharsetProber { m_last_char_0: a[a.len() - 1], ..t };
        assert(s.spec_feed(a) == t2);
        lemma_mb_scan_split(s, a, b, 0);
        lemma_mb_scan_frame(t2, b, 0);
        if b.len() == 0 {
            assert(a + b =~= a);
        } else {
            assert((a + b)[(a + b).len() - 1] == b[b.len() - 1]);
        }
    }
}

} // verus!
