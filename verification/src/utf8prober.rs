//! UTF-8 detector: one byte-class state machine plus a counter of multi-byte
//! characters. Each valid multi-byte sequence halves the remaining doubt, so
//! the confidence saturates quickly.

use vstd::prelude::*;
use vstd::arithmetic::power2::lemma2_to64;
use vstd::arithmetic::power2::pow2;

use crate::CONF_ONE;
use crate::CONF_POSITIVE_SHORTCUT;
use crate::CONF_SURE_NO;
use crate::CONF_SURE_YES;
use crate::chardistribution::sat_inc;
use crate::codingstatemachine::CodingStateMachine;
use crate::codingstatemachine::StateMachineModel;
use crate::codingstatemachine::spec_byte_pos_after;
use crate::codingstatemachine::spec_char_len_after;
use crate::codingstatemachine::spec_next_state;
use crate::enums::MACHINE_ERROR;
use crate::enums::MACHINE_ITS_ME;
use crate::enums::MACHINE_START;
use crate::enums::ProbingState;

verus! {

/// Multi-byte characters after which the confidence curve goes flat.
pub const UTF8_SATURATION_COUNT: u32 = 6;

/// The UTF-8 confidence after `n` multi-byte characters, in parts per
/// million: `1 - 0.99 * 0.5^n` below the saturation count, flat 0.99 from
/// there on.
pub open spec fn spec_utf8_confidence(n: u32) -> u32 {
    if n >= UTF8_SATURATION_COUNT {
        CONF_SURE_YES
    } else {
        (CONF_ONE as int - CONF_SURE_YES as int / pow2(n as nat) as int) as u32
    }
}

/// A UTF-8 detector session.
pub struct UTF8Prober {
    /// The current verdict.
    pub m_state: ProbingState,
    /// The structural validator of UTF-8 byte sequences.
    pub m_coding_sm: CodingStateMachine,
    /// Characters of expected length at least 2 seen so far (saturating).
    pub m_num_mb_chars: u32,
}

impl UTF8Prober {
    /// The machine is well formed.
    pub open spec fn wf(&self) -> bool {
        self.m_coding_sm.wf()
    }

    /// The session after the byte loop of one feed call has consumed
    /// `bytes[i..]`: each byte steps the machine; a character boundary whose
    /// expected length is at least 2 counts as multi-byte evidence; ERROR and
    /// ITS_ME settle the verdict and stop the loop.
    pub open spec fn spec_scan(self, bytes: Seq<u8>, i: nat) -> UTF8Prober
        decreases bytes.len() - i,
    {
        if i >= bytes.len() {
            self
        } else {
            let b = bytes[i as int];
            let m = self.m_coding_sm.m_model;
            let st = self.m_coding_sm.m_curr_state;
            let ns = spec_next_state(m, st, b);
            let sm2 = CodingStateMachine {
                m_curr_state: ns,
                m_curr_char_len: spec_char_len_after(m, st, self.m_coding_sm.m_curr_char_len, b),
                m_curr_byte_pos: spec_byte_pos_after(st, self.m_coding_sm.m_curr_byte_pos),
                ..self.m_coding_sm
            };
            if ns == MACHINE_ERROR {
                UTF8Prober { m_state: ProbingState::NotMe, m_coding_sm: sm2, ..self }
            } else if ns == MACHINE_ITS_ME {
                UTF8Prober { m_state: ProbingState::FoundIt, m_coding_sm: sm2, ..self }
            } else if ns == MACHINE_START {
                let n = if sm2.m_curr_char_len >= 2 {
                    sat_inc(self.m_num_mb_chars)
                } else {
                    self.m_num_mb_chars
                };
                UTF8Prober { m_coding_sm: sm2, m_num_mb_chars: n, ..self }.spec_scan(bytes, i + 1)
            } else {
                UTF8Prober { m_coding_sm: sm2, ..self }.spec_scan(bytes, i + 1)
            }
        }
    }

    /// The session after one whole feed call: the byte loop, then the
    /// early-exit shortcut on decisive confidence.
    pub open spec fn spec_feed(self, bytes: Seq<u8>) -> UTF8Prober {
        let t = self.spec_scan(bytes, 0);
        if t.m_state == ProbingState::Detecting && spec_utf8_confidence(t.m_num_mb_chars)
            > CONF_POSITIVE_SHORTCUT {
            UTF8Prober { m_state: ProbingState::FoundIt, ..t }
        } else {
            t
        }
    }

    /// A fresh detector over the given UTF-8 state-machine model.
    pub fn new(model: StateMachineModel) -> (r: UTF8Prober)
        requires
            model.wf(),
        ensures
            r.wf(),
            r.m_state == ProbingState::Detecting,
            r.m_coding_sm == CodingStateMachine::spec_new(model),
            r.m_num_mb_chars == 0,
    {
        UTF8Prober {
            m_state: ProbingState::Detecting,
            m_coding_sm: CodingStateMachine::new(model),
            m_num_mb_chars: 0,
        }
    }

    /// Returns the session to its just-constructed state.
    pub fn reset(&mut self)
        requires
            old(self).wf(),
        ensures
            final(self).wf(),
            *final(self) == (UTF8Prober {
                m_state: ProbingState::Detecting,
                m_coding_sm: CodingStateMachine {
                    m_curr_state: MACHINE_START,
                    ..old(self).m_coding_sm
                },
                m_num_mb_chars: 0,
            }),
    {
        self.m_state = ProbingState::Detecting;
        self.m_coding_sm.reset();
        self.m_num_mb_chars = 0;
    }

    /// Scans one buffer: steps the machine on every byte, counts multi-byte
    /// character boundaries, and applies the early-exit shortcut.
    pub fn feed(&mut self, byte_str: &[u8]) -> (r: ProbingState)
        requires
            old(self).wf(),
        ensures
            final(self).wf(),
            *final(self) == old(self).spec_feed(byte_str@),
            r == final(self).m_state,
    {
        let ghost orig = *old(self);
        let mut i: usize = 0;
        let mut stopped: bool = false;
        while i < byte_str.len() && !stopped
            invariant
                i <= byte_str@.len(),
                self.wf(),
                !stopped ==> orig.spec_scan(byte_str@, 0) == self.spec_scan(byte_str@, i as nat),
                stopped ==> *self == orig.spec_scan(byte_str@, 0),
            decreases byte_str@.len() - i + (if stopped { 0int } else { 1int }),
        {
            let b = byte_str[i];
            let ns = self.m_coding_sm.next_state(b);
            if ns == MACHINE_ERROR {
                self.m_state = ProbingState::NotMe;
                stopped = true;
            } else if ns == MACHINE_ITS_ME {
                self.m_state = ProbingState::FoundIt;
                stopped = true;
            } else {
                if ns == MACHINE_START {
                    if self.m_coding_sm.get_current_charlen() >= 2 {
                        if self.m_num_mb_chars < u32::MAX {
                            self.m_num_mb_chars = self.m_num_mb_chars + 1;
                        }
                    }
                }
                i = i + 1;
            }
        }
        if self.m_state == ProbingState::Detecting {
            let conf = self.get_confidence();
            if conf > CONF_POSITIVE_SHORTCUT {
                self.m_state = ProbingState::FoundIt;
            }
        }
        self.m_state
    }

    /// The charset name this detector stands for.
    pub fn get_charset(&self) -> (r: String)
        ensures
            r@ == "utf-8"@,
    {
        "utf-8".to_owned()
    }

    /// The saturating confidence curve over the multi-byte characters seen.
    pub fn get_confidence(&self) -> (r: u32)
        ensures
            r == spec_utf8_confidence(self.m_num_mb_chars),
            CONF_SURE_NO <= r <= CONF_SURE_YES,
    {
        proof {
            lemma2_to64();
        }
        if self.m_num_mb_chars >= UTF8_SATURATION_COUNT {
            CONF_SURE_YES
        } else {
            let divisor: u32 = if self.m_num_mb_chars == 0 {
                1
            } else if self.m_num_mb_chars == 1 {
                2
            } else if self.m_num_mb_chars == 2 {
                4
            } else if self.m_num_mb_chars == 3 {
                8
            } else if self.m_num_mb_chars == 4 {
                16
            } else {
                32
            };
            CONF_ONE - CONF_SURE_YES / divisor
        }
    }

    /// The language label this detector stands for: UTF-8 is not tied to one.
    pub fn get_language(&self) -> (r: String)
        ensures
            r@ == ""@,
    {
        "".to_owned()
    }

    /// The current verdict without scanning anything.
    pub fn get_state(&self) -> (r: ProbingState)
        ensures
            r == self.m_state,
    {
        self.m_state
    }
}

/// The confidence curve saturates: five multi-byte characters push it past
/// the early-exit threshold, six reach the 0.99 ceiling.
pub proof fn lemma_utf8_confidence_saturates(n: u32)
    ensures
        n >= 5 ==> spec_utf8_confidence(n) > CONF_POSITIVE_SHORTCUT,
        n >= UTF8_SATURATION_COUNT ==> spec_utf8_confidence(n) == CONF_SURE_YES,
        CONF_SURE_NO <= spec_utf8_confidence(n) <= CONF_SURE_YES,
{
    lemma2_to64();
    if n == 0 {
        assert(spec_utf8_confidence(n) == CONF_ONE - 990000int / 1);
    } else if n == 1 {
        assert(spec_utf8_confidence(n) == CONF_ONE - 990000int / 2);
    } else if n == 2 {
        assert(spec_utf8_confidence(n) == CONF_ONE - 990000int / 4);
    } else if n == 3 {
        assert(spec_utf8_confidence(n) == CONF_ONE - 990000int / 8);
    } else if n == 4 {
        assert(spec_utf8_confidence(n) == CONF_ONE - 990000int / 16);
    } else if n == 5 {
        assert(spec_utf8_confidence(n) == CONF_ONE - 990000int / 32);
    }
}

/// A buffer whose scan leaves the detector still structurally valid after at
/// least six multi-byte characters drives the feed to FoundIt with the
/// ceiling confidence 0.99.
pub proof fn lemma_utf8_multibyte_run_is_found(s: UTF8Prober, bytes: Seq<u8>)
    requires
        s.spec_scan(bytes, 0).m_state == ProbingState::Detecting,
        s.spec_scan(bytes, 0).m_num_mb_chars >= UTF8_SATURATION_COUNT,
    ensures
        s.spec_feed(bytes).m_state == ProbingState::FoundIt,
        spec_utf8_confidence(s.spec_feed(bytes).m_num_mb_chars) == CONF_SURE_YES,
{
    lemma_utf8_confidence_saturates(s.spec_scan(bytes, 0).m_num_mb_chars);
}

/// Scanning picks up where it left off: the scan of a concatenation from the
/// boundary equals the scan of the second chunk from its start.
proof fn lemma_utf8_scan_shift(s: UTF8Prober, a: Seq<u8>, b: Seq<u8>, k: nat)
    requires
        k <= b.len(),
    ensures
        s.spec_scan(a + b, a.len() + k) == s.spec_scan(b, k),
    decreases b.len() - k,
{
    assert((a + b).len() == a.len() + b.len());
    if k < b.len() {
        assert((a + b)[a.len() + k as int] == b[k as int]);
        let st = s.m_coding_sm.m_curr_state;
        let ns = spec_next_state(s.m_coding_sm.m_model, st, b[k as int]);
        if ns == MACHINE_ERROR || ns == MACHINE_ITS_ME {
        } else {
            let sm2 = CodingStateMachine {
                m_curr_state: ns,
                m_curr_char_len: spec_char_len_after(
                    s.m_coding_sm.m_model,
                    st,
                    s.m_coding_sm.m_curr_char_len,
                    b[k as int],
                ),
                m_curr_byte_pos: spec_byte_pos_after(st, s.m_coding_sm.m_curr_byte_pos),
                ..s.m_coding_sm
            };
            let n = if ns == MACHINE_START && sm2.m_curr_char_len >= 2 {
                sat_inc(s.m_num_mb_chars)
            } else {
                s.m_num_mb_chars
            };
            lemma_utf8_scan_shift(
                UTF8Prober { m_coding_sm: sm2, m_num_mb_chars: n, ..s },
                a,
                b,
                k + 1,
            );
        }
    }
}

/// While no verdict falls inside the first chunk, scanning the concatenation
/// equals scanning the first chunk and then the second.
proof fn lemma_utf8_scan_split(s: UTF8Prober, a: Seq<u8>, b: Seq<u8>, i: nat)
    requires
        i <= a.len(),
        s.m_state == ProbingState::Detecting,
        s.spec_scan(a, i).m_state == ProbingState::Detecting,
    ensures
        s.spec_scan(a + b, i) == s.spec_scan(a, i).spec_scan(b, 0),
    decreases a.len() - i,
{
    if i >= a.len() {
        lemma_utf8_scan_shift(s, a, b, 0);
    } else {
        assert((a + b)[i as int] == a[i as int]);
        let st = s.m_coding_sm.m_curr_state;
        let ns = spec_next_state(s.m_coding_sm.m_model, st, a[i as int]);
        if ns == MACHINE_ERROR || ns == MACHINE_ITS_ME {
            // The scan of the first chunk would have settled a verdict.
            assert(false);
        } else {
            let sm2 = CodingStateMachine {
                m_curr_state: ns,
                m_curr_char_len: spec_char_len_after(
                    s.m_coding_sm.m_model,
                    st,
                    s.m_coding_sm.m_curr_char_len,
                    a[i as int],
                ),
                m_curr_byte_pos: spec_byte_pos_after(st, s.m_coding_sm.m_curr_byte_pos),
                ..s.m_coding_sm
            };
            let n = if ns == MACHINE_START && sm2.m_curr_char_len >= 2 {
                sat_inc(s.m_num_mb_chars)
            } else {
                s.m_num_mb_chars
            };
            lemma_utf8_scan_split(
                UTF8Prober { m_coding_sm: sm2, m_num_mb_chars: n, ..s },
                a,
                b,
                i + 1,
            );
        }
    }
}

/// Split feeding: while the detector is still undecided after the first
/// chunk, feeding a buffer in two chunks leaves the session exactly as
/// feeding the concatenation at once.
pub proof fn lemma_utf8_feed_split(s: UTF8Prober, a: Seq<u8>, b: Seq<u8>)
    requires
        s.m_state == ProbingState::Detecting,
        s.spec_feed(a).m_state == ProbingState::Detecting,
    ensures
        s.spec_feed(a).spec_feed(b) == s.spec_feed(a + b),
{
    let t = s.spec_scan(a, 0);
    assert(s.spec_feed(a) == t);
    lemma_utf8_scan_split(s, a, b, 0);
}

} // verus!
