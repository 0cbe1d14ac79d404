//! Escape-sequence detector: a pool of state machines, one per escape-based
//! encoding candidate, run concurrently over the same byte stream. Escape
//! sequences are either unambiguous or absent, so confidence is binary.

use vstd::prelude::*;

use crate::CONF_SURE_YES;
use crate::codingstatemachine::CodingStateMachine;
use crate::codingstatemachine::spec_byte_pos_after;
use crate::codingstatemachine::spec_char_len_after;
use crate::codingstatemachine::spec_next_state;
use crate::enums::MACHINE_ERROR;
use crate::enums::MACHINE_ITS_ME;
use crate::enums::MACHINE_START;
use crate::enums::ProbingState;
use crate::escsm::hz_sm_model;
use crate::escsm::iso2022cn_sm_model;
use crate::escsm::iso2022jp_sm_model;
use crate::escsm::iso2022kr_sm_model;

verus! {

/// A count that sticks at zero instead of wrapping.
pub open spec fn sat_dec(x: usize) -> usize {
    if x > 0 {
        (x - 1) as usize
    } else {
        0
    }
}

/// The abstract state of an escape-sequence detector session.
pub struct EscProberView {
    /// The current verdict.
    pub m_state: ProbingState,
    /// The pooled machines, in registration order.
    pub machines: Seq<CodingStateMachine>,
    /// Which machines are still viable candidates.
    pub valid: Seq<bool>,
    /// The recognized charset name, empty until FoundIt.
    pub charset: Seq<char>,
    /// The recognized language, empty until FoundIt.
    pub language: Seq<char>,
    /// How many machines are still viable.
    pub active: usize,
}

impl EscProberView {
    /// Machines and flags line up and every machine is well formed.
    pub open spec fn wf(&self) -> bool {
        &&& self.machines.len() == self.valid.len()
        &&& forall|k: int| 0 <= k < self.machines.len() ==> (#[trigger] self.machines[k]).wf()
    }

    /// The session after byte `b` has been offered to the machines from index
    /// `j` on. The second component tells whether the whole feed call stops
    /// here: on a machine reaching ITS_ME, or on the last viable machine
    /// erroring out.
    pub open spec fn spec_scan_byte(self, b: u8, j: nat) -> (EscProberView, bool)
        decreases self.machines.len() - j,
    {
        if j >= self.machines.len() {
            (self, false)
        } else if !self.valid[j as int] {
            self.spec_scan_byte(b, j + 1)
        } else {
            let mach = self.machines[j as int];
            let m = mach.m_model;
            let st = mach.m_curr_state;
            let ns = spec_next_state(m, st, b);
            let mach2 = CodingStateMachine {
                m_curr_state: ns,
                m_curr_char_len: spec_char_len_after(m, st, mach.m_curr_char_len, b),
                m_curr_byte_pos: spec_byte_pos_after(st, mach.m_curr_byte_pos),
                ..mach
            };
            let stepped = EscProberView { machines: self.machines.update(j as int, mach2), ..self };
            if ns == MACHINE_ERROR {
                let active2 = sat_dec(stepped.active);
                let invalidated = EscProberView {
                    valid: stepped.valid.update(j as int, false),
                    active: active2,
                    ..stepped
                };
                if active2 == 0 {
                    (EscProberView { m_state: ProbingState::NotMe, ..invalidated }, true)
                } else {
                    invalidated.spec_scan_byte(b, j + 1)
                }
            } else if ns == MACHINE_ITS_ME {
                (
                    EscProberView {
                        m_state: ProbingState::FoundIt,
                        charset: mach2.m_model.name@,
                        language: mach2.m_model.language@,
                        ..stepped
                    },
                    true,
                )
            } else {
                stepped.spec_scan_byte(b, j + 1)
            }
        }
    }

    /// The session after one feed call has consumed `bytes[i..]`.
    pub open spec fn spec_scan(self, bytes: Seq<u8>, i: nat) -> EscProberView
        decreases bytes.len() - i,
    {
        if i >= bytes.len() {
            self
        } else {
            let (t, stop) = self.spec_scan_byte(bytes[i as int], 0);
            if stop {
                t
            } else {
                t.spec_scan(bytes, i + 1)
            }
        }
    }
}

/// An escape-sequence detector session over the pooled machines for
/// HZ-GB-2312, ISO-2022-CN, ISO-2022-JP and ISO-2022-KR.
pub struct EscCharsetProber {
    /// The current verdict.
    pub m_state: ProbingState,
    /// The pooled machines.
    pub m_coding_sm: Vec<CodingStateMachine>,
    /// Which machines are still viable candidates.
    pub m_coding_sm_valid: Vec<bool>,
    /// The recognized charset name, empty until FoundIt.
    pub m_detected_charset: String,
    /// The recognized language, empty until FoundIt.
    pub m_detected_language: String,
    /// How many machines are still viable.
    pub m_active_sm_count: usize,
}

impl View for EscCharsetProber {
    type V = EscProberView;

    open spec fn view(&self) -> EscProberView {
        EscProberView {
            m_state: self.m_state,
            machines: self.m_coding_sm@,
            valid: self.m_coding_sm_valid@,
            charset: self.m_detected_charset@,
            language: self.m_detected_language@,
            active: self.m_active_sm_count,
        }
    }
}

impl EscCharsetProber {
    /// The abstract state is well formed.
    pub open spec fn wf(&self) -> bool {
        self@.wf()
    }

    /// A fresh session: all four escape machines viable, verdict Detecting,
    /// no charset recognized yet.
    pub fn new() -> (r: EscCharsetProber)
        ensures
            r.wf(),
            r@.m_state == ProbingState::Detecting,
            r@.machines.len() == 4,
            r@.valid =~= seq![true, true, true, true],
            r@.active == 4,
            r@.charset.len() == 0,
            r@.language.len() == 0,
            forall|k: int|
                0 <= k < 4 ==> (#[trigger] r@.machines[k]).m_curr_state == MACHINE_START,
            r@.machines[0].m_model.name@ == "HZ-GB-2312"@,
            r@.machines[1].m_model.name@ == "ISO-2022-CN"@,
            r@.machines[2].m_model.name@ == "ISO-2022-JP"@,
            r@.machines[3].m_model.name@ == "ISO-2022-KR"@,
    {
        let mut machines: Vec<CodingStateMachine> = Vec::new();
        let mut valid: Vec<bool> = Vec::new();
        machines.push(CodingStateMachine::new(hz_sm_model()));
        valid.push(true);
        machines.push(CodingStateMachine::new(iso2022cn_sm_model()));
        valid.push(true);
        machines.push(CodingStateMachine::new(iso2022jp_sm_model()));
        valid.push(true);
        machines.push(CodingStateMachine::new(iso2022kr_sm_model()));
        valid.push(true);
        let count = machines.len();
        EscCharsetProber {
            m_state: ProbingState::Detecting,
            m_coding_sm: machines,
            m_coding_sm_valid: valid,
            m_detected_charset: String::new(),
            m_detected_language: String::new(),
            m_active_sm_count: count,
        }
    }

    /// Returns the session to its just-constructed state: every machine reset
    /// and viable again, the verdict and the recognized labels cleared.
    pub fn reset(&mut self)
        requires
            old(self).wf(),
        ensures
            final(self).wf(),
            final(self)@.m_state == ProbingState::Detecting,
            final(self)@.machines.len() == old(self)@.machines.len(),
            forall|k: int|
                0 <= k < old(self)@.machines.len() ==> #[trigger] final(self)@.machines[k]
                    == (CodingStateMachine {
                    m_curr_state: MACHINE_START,
                    ..old(self)@.machines[k]
                }),
            forall|k: int|
                0 <= k < old(self)@.valid.len() ==> #[trigger] final(self)@.valid[k] == true,
            final(self)@.valid.len() == old(self)@.valid.len(),
            final(self)@.active == final(self)@.machines.len(),
            final(self)@.charset.len() == 0,
            final(self)@.language.len() == 0,
    {
        self.m_state = ProbingState::Detecting;
        let n = self.m_coding_sm.len();
        let mut i: usize = 0;
        while i < n
            invariant
                i <= n,
                n == self.m_coding_sm@.len(),
                self.m_coding_sm_valid@.len() == old(self).m_coding_sm_valid@.len(),
                self.m_coding_sm@.len() == old(self).m_coding_sm@.len(),
                forall|k: int|
                    0 <= k < i ==> #[trigger] self.m_coding_sm@[k] == (CodingStateMachine {
                        m_curr_state: MACHINE_START,
                        ..old(self).m_coding_sm@[k]
                    }),
                forall|k: int|
                    i <= k < n ==> #[trigger] self.m_coding_sm@[k] == old(self).m_coding_sm@[k],
                forall|k: int|
                    0 <= k < i && k < self.m_coding_sm_valid@.len()
                        ==> #[trigger] self.m_coding_sm_valid@[k] == true,
                forall|k: int|
                    i <= k < self.m_coding_sm_valid@.len() ==> #[trigger] self.m_coding_sm_valid@[k]
                        == old(self).m_coding_sm_valid@[k],
                old(self).wf(),
                self.m_state == ProbingState::Detecting,
                self.m_detected_charset == old(self).m_detected_charset,
                self.m_detected_language == old(self).m_detected_language,
            decreases n - i,
        {
            let mut mach = self.m_coding_sm.remove(i);
            mach.reset();
            self.m_coding_sm.insert(i, mach);
            if i < self.m_coding_sm_valid.len() {
                self.m_coding_sm_valid.remove(i);
                self.m_coding_sm_valid.insert(i, true);
            }
            i = i + 1;
        }
        let count = self.m_coding_sm.len();
        self.m_active_sm_count = count;
        self.m_detected_charset = String::new();
        self.m_detected_language = String::new();
        proof {
            assert forall|k: int|
                0 <= k < self.m_coding_sm@.len() implies (#[trigger] self.m_coding_sm@[k]).wf() by {
                assert(old(self).m_coding_sm@[k].wf());
            };
        }
    }

    /// Offers every byte to every still-viable machine. A machine erroring
    /// out leaves the pool; when none is left the verdict is NotMe. A machine
    /// reaching ITS_ME settles the verdict as FoundIt with its labels.
    pub fn feed(&mut self, byte_str: &[u8]) -> (r: ProbingState)
        requires
            old(self).wf(),
        ensures
            final(self).wf(),
            final(self)@ == old(self)@.spec_scan(byte_str@, 0),
            r == final(self)@.m_state,
    {
        let ghost orig = self@;
        let mut i: usize = 0;
        let mut stopped: bool = false;
        while i < byte_str.len() && !stopped
            invariant
                i <= byte_str@.len(),
                self.wf(),
                self.m_coding_sm@.len() == self.m_coding_sm_valid@.len(),
                !stopped ==> orig.spec_scan(byte_str@, 0) == self@.spec_scan(byte_str@, i as nat),
                stopped ==> self@ == orig.spec_scan(byte_str@, 0),
            decreases byte_str@.len() - i + (if stopped { 0int } else { 1int }),
        {
            let b = byte_str[i];
            let ghost entry = self@;
            let n = self.m_coding_sm.len();
            let mut j: usize = 0;
            while j < n && !stopped
                invariant
                    j <= n,
                    n == self.m_coding_sm@.len(),
                    self.wf(),
                    self.m_coding_sm@.len() == self.m_coding_sm_valid@.len(),
                    !stopped ==> entry.spec_scan_byte(b, 0) == self@.spec_scan_byte(b, j as nat),
                    stopped ==> entry.spec_scan_byte(b, 0) == (self@, true),
                decreases n - j + (if stopped { 0int } else { 1int }),
            {
                if self.m_coding_sm_valid[j] {
                    let ghost before = self@;
                    let mut mach = self.m_coding_sm.remove(j);
                    let ns = mach.next_state(b);
                    let name = mach.get_coding_state_machine().to_owned();
                    let language = mach.get_language().to_owned();
                    self.m_coding_sm.insert(j, mach);
                    proof {
                        assert(self.m_coding_sm@ =~= before.machines.update(
                            j as int,
                            self.m_coding_sm@[j as int],
                        ));
                    }
                    if ns == MACHINE_ERROR {
                        self.m_coding_sm_valid.remove(j);
                        self.m_coding_sm_valid.insert(j, false);
                        proof {
                            assert(self.m_coding_sm_valid@ =~= before.valid.update(j as int, false));
                        }
                        if self.m_active_sm_count > 0 {
                            self.m_active_sm_count = self.m_active_sm_count - 1;
                        }
                        if self.m_active_sm_count == 0 {
                            self.m_state = ProbingState::NotMe;
                            stopped = true;
                        } else {
                            j = j + 1;
                        }
                    } else if ns == MACHINE_ITS_ME {
                        self.m_state = ProbingState::FoundIt;
                        self.m_detected_charset = name;
                        self.m_detected_language = language;
                        stopped = true;
                    } else {
                        j = j + 1;
                    }
                } else {
                    j = j + 1;
                }
            }
            if !stopped {
                i = i + 1;
            }
        }
        self.m_state
    }

    /// The recognized charset name; empty while none has been recognized.
    pub fn get_charset(&self) -> (r: String)
        ensures
            r@ == self@.charset,
    {
        self.m_detected_charset.clone()
    }

    /// Binary confidence: the ceiling once a charset has been recognized,
    /// zero otherwise.
    pub fn get_confidence(&self) -> (r: u32)
        ensures
            r == if self@.charset.len() > 0 {
                CONF_SURE_YES
            } else {
                0u32
            },
    {
        if self.m_detected_charset.as_str().is_empty() {
            0
        } else {
            CONF_SURE_YES
        }
    }

    /// The recognized language; empty while none has been recognized.
    pub fn get_language(&self) -> (r: String)
        ensures
            r@ == self@.language,
    {
        self.m_detected_language.clone()
    }

    /// The current verdict without scanning anything.
    pub fn get_state(&self) -> (r: ProbingState)
        ensures
            r == self@.m_state,
    {
        self.m_state
    }
}

/// A stopping inner scan has just settled a verdict; a non-stopping one
/// leaves the verdict as it was.
proof fn lemma_esc_scan_byte_state(e: EscProberView, b: u8, j: nat)
    ensures
        e.spec_scan_byte(b, j).1 ==> e.spec_scan_byte(b, j).0.m_state == ProbingState::NotMe
            || e.spec_scan_byte(b, j).0.m_state == ProbingState::FoundIt,
        !e.spec_scan_byte(b, j).1 ==> e.spec_scan_byte(b, j).0.m_state == e.m_state,
    decreases e.machines.len() - j,
{
    if j >= e.machines.len() {
    } else if !e.valid[j as int] {
        lemma_esc_scan_byte_state(e, b, j + 1);
    } else {
        let mach = e.machines[j as int];
        let m = mach.m_model;
        let st = mach.m_curr_state;
        let ns = spec_next_state(m, st, b);
        let mach2 = CodingStateMachine {
            m_curr_state: ns,
            m_curr_char_len: spec_char_len_after(m, st, mach.m_curr_char_len, b),
            m_curr_byte_pos: spec_byte_pos_after(st, mach.m_curr_byte_pos),
            ..mach
        };
        let stepped = EscProberView { machines: e.machines.update(j as int, mach2), ..e };
        if ns == MACHINE_ERROR {
            let active2 = sat_dec(stepped.active);
            let invalidated = EscProberView {
                valid: stepped.valid.update(j as int, false),
                active: active2,
                ..stepped
            };
            if active2 == 0 {
            } else {
                lemma_esc_scan_byte_state(invalidated, b, j + 1);
            }
        } else if ns == MACHINE_ITS_ME {
        } else {
            lemma_esc_scan_byte_state(stepped, b, j + 1);
        }
    }
}

/// Scanning picks up where it left off: the scan of a concatenation from the
/// boundary equals the scan of the second chunk from its start.
proof fn lemma_esc_scan_shift(e: EscProberView, a: Seq<u8>, b: Seq<u8>, k: nat)
    requires
        k <= b.len(),
    ensures
        e.spec_scan(a + b, a.len() + k) == e.spec_scan(b, k),
    decreases b.len() - k,
{
    assert((a + b).len() == a.len() + b.len());
    if k < b.len() {
        assert((a + b)[a.len() + k as int] == b[k as int]);
        let (t, stop) = e.spec_scan_byte(b[k as int], 0);
        if !stop {
            lemma_esc_scan_shift(t, a, b, k + 1);
        }
    }
}

/// Split feeding: while the detector is still undecided after the first
/// chunk, feeding a buffer in two chunks leaves the session exactly as
/// feeding the concatenation at once.
pub proof fn lemma_esc_feed_split(e: EscProberView, a: Seq<u8>, b: Seq<u8>)
    requires
        e.m_state == ProbingState::Detecting,
        e.spec_scan(a, 0).m_state == ProbingState::Detecting,
    ensures
        e.spec_scan(a, 0).spec_scan(b, 0) == e.spec_scan(a + b, 0),
{
    lemma_esc_scan_split(e, a, b, 0);
}

/// The induction behind the split law, from an arbitrary position in the
/// first chunk.
proof fn lemma_esc_scan_split(e: EscProberView, a: Seq<u8>, b: Seq<u8>, i: nat)
    requires
        i <= a.len(),
        e.m_state == ProbingState::Detecting,
        e.spec_scan(a, i).m_state == ProbingState::Detecting,
    ensures
        e.spec_scan(a + b, i) == e.spec_scan(a, i).spec_scan(b, 0),
    decreases a.len() - i,
{
    if i >= a.len() {
        lemma_esc_scan_shift(e, a, b, 0);
    } else {
        assert((a + b)[i as int] == a[i as int]);
        let (t, stop) = e.spec_scan_byte(a[i as int], 0);
        lemma_esc_scan_byte_state(e, a[i as int], 0);
        if stop {
            // The scan of the first chunk would have settled a verdict.
            assert(false);
        } else {
            lemma_esc_scan_split(t, a, b, i + 1);
        }
    }
}

} // verus!
