//! Table-driven byte-class state machine: a DFA stepped one byte at a time,
//! driven by a supplied model (byte-to-class table, state-transition table,
//! per-class expected character length, and name/language labels).

use vstd::prelude::*;

use crate::enums::MACHINE_ERROR;
use crate::enums::MACHINE_ITS_ME;
use crate::enums::MACHINE_START;

verus! {

/// An immutable state-machine model. A well-formed model (see [`sm_tables_wf`])
/// guarantees that every table lookup made by [`CodingStateMachine`] is in
/// bounds for every possible byte, and that the ERROR and ITS_ME rows are
/// absorbing, so a machine left in a terminal state stays there until reset.
pub struct StateMachineModel {
    /// Byte-to-class table, one entry per byte value.
    pub class_table: Vec<u8>,
    /// Number of byte classes; the width of one row of `state_table`.
    pub class_factor: u8,
    /// State-transition table: `state_table[state * class_factor + class]`.
    pub state_table: Vec<u8>,
    /// Expected character length for a character whose first byte has the
    /// given class.
    pub char_len_table: Vec<u8>,
    /// Encoding name reported when this machine recognizes its encoding.
    pub name: String,
    /// Language label of the encoding.
    pub language: String,
}

/// Well-formedness of a state-machine table set.
pub open spec fn sm_tables_wf(
    class_table: Seq<u8>,
    class_factor: u8,
    state_table: Seq<u8>,
    char_len_table: Seq<u8>,
) -> bool {
    &&& class_factor > 0
    &&& class_table.len() == 256
    &&& forall|i: int| 0 <= i < 256 ==> class_table[i] < class_factor
    &&& state_table.len() >= 3 * class_factor
    &&& forall|j: int|
        0 <= j < state_table.len() ==> (state_table[j] as int + 1) * class_factor
            <= state_table.len()
    &&& forall|c: int|
        0 <= c < class_factor ==> #[trigger] state_table[MACHINE_ERROR as int * class_factor + c]
            == MACHINE_ERROR
    &&& forall|c: int|
        0 <= c < class_factor ==> #[trigger] state_table[MACHINE_ITS_ME as int * class_factor + c]
            == MACHINE_ITS_ME
    &&& char_len_table.len() == class_factor
}

impl StateMachineModel {
    /// The model's tables are well formed.
    pub open spec fn wf(&self) -> bool {
        sm_tables_wf(self.class_table@, self.class_factor, self.state_table@, self.char_len_table@)
    }

    /// Builds a model after checking the supplied tables; returns `None`
    /// exactly when the tables are not well formed.
    pub fn new(
        class_table: Vec<u8>,
        class_factor: u8,
        state_table: Vec<u8>,
        char_len_table: Vec<u8>,
        name: String,
        language: String,
    ) -> (r: Option<StateMachineModel>)
        ensures
            r is Some <==> sm_tables_wf(class_table@, class_factor, state_table@, char_len_table@),
            match r {
                Some(m) => {
                    &&& m.wf()
                    &&& m.class_table@ == class_table@
                    &&& m.class_factor == class_factor
                    &&& m.state_table@ == state_table@
                    &&& m.char_len_table@ == char_len_table@
                    &&& m.name@ == name@
                    &&& m.language@ == language@
                },
                None => true,
            },
    {
        if class_factor == 0 || class_table.len() != 256 {
            return None;
        }
        if char_len_table.len() != class_factor as usize {
            return None;
        }
        if state_table.len() < 3 * class_factor as usize {
            return None;
        }
        let mut i: usize = 0;
        while i < 256
            invariant
                i <= 256,
                class_table@.len() == 256,
                forall|k: int| 0 <= k < i ==> class_table@[k] < class_factor,
            decreases 256 - i,
        {
            if class_table[i] >= class_factor {
                return None;
            }
            i = i + 1;
        }
        let n: usize = state_table.len();
        let mut j: usize = 0;
        while j < n
            invariant
                j <= n,
                n == state_table@.len(),
                n <= usize::MAX,
                forall|k: int|
                    0 <= k < j ==> (state_table@[k] as int + 1) * class_factor <= n,
            decreases n - j,
        {
            let entry: u8 = state_table[j];
            proof {
                // entry + 1 <= 256 and class_factor <= 255, so the product
                // fits in usize.
                assert((entry as int + 1) * (class_factor as int) <= 256 * 255)
                    by (nonlinear_arith);
            }
            if (entry as usize + 1) * (class_factor as usize) > n {
                return None;
            }
            j = j + 1;
        }
        let mut c: usize = 0;
        while c < class_factor as usize
            invariant
                c <= class_factor as usize,
                state_table@.len() == n,
                n >= 3 * class_factor,
                forall|k: int|
                    0 <= k < c ==> #[trigger] state_table@[MACHINE_ERROR as int * class_factor + k]
                        == MACHINE_ERROR,
                forall|k: int|
                    0 <= k < c ==> #[trigger] state_table@[MACHINE_ITS_ME as int * class_factor + k]
                        == MACHINE_ITS_ME,
            decreases class_factor as usize - c,
        {
            if state_table[(MACHINE_ERROR as usize) * (class_factor as usize) + c] != MACHINE_ERROR
            {
                return None;
            }
            if state_table[(MACHINE_ITS_ME as usize) * (class_factor as usize) + c]
                != MACHINE_ITS_ME {
                return None;
            }
            c = c + 1;
        }
        Some(
            StateMachineModel {
                class_table,
                class_factor,
                state_table,
                char_len_table,
                name,
                language,
            },
        )
    }
}

/// The class that the model assigns to byte `b`.
pub open spec fn spec_byte_class(m: StateMachineModel, b: u8) -> u8 {
    m.class_table@[b as int]
}

/// The state reached from `s` on byte `b`.
pub open spec fn spec_next_state(m: StateMachineModel, s: u8, b: u8) -> u8 {
    m.state_table@[s as int * m.class_factor as int + spec_byte_class(m, b) as int]
}

/// A byte-position count that sticks at `usize::MAX` instead of wrapping.
pub open spec fn sat_inc_usize(x: usize) -> usize {
    if x < usize::MAX {
        (x + 1) as usize
    } else {
        x
    }
}

/// The intra-character byte position after stepping from state `s`: restarted
/// when a new character begins, advanced otherwise.
pub open spec fn spec_byte_pos_after(s: u8, old_pos: usize) -> usize {
    if s == MACHINE_START {
        1
    } else {
        sat_inc_usize(old_pos)
    }
}

/// The expected character length after stepping on byte `b` from state `s`:
/// recorded from the table when a new character begins, kept otherwise.
pub open spec fn spec_char_len_after(m: StateMachineModel, s: u8, old_len: u8, b: u8) -> u8 {
    if s == MACHINE_START {
        m.char_len_table@[spec_byte_class(m, b) as int]
    } else {
        old_len
    }
}

/// A mutable walk over a [`StateMachineModel`]: the current state, the byte
/// position within the current character, and the expected character length.
pub struct CodingStateMachine {
    /// The model driving this machine; never mutated.
    pub m_model: StateMachineModel,
    /// Bytes consumed of the current character (saturating).
    pub m_curr_byte_pos: usize,
    /// Expected length of the current character, from the model's table.
    pub m_curr_char_len: u8,
    /// Current DFA state.
    pub m_curr_state: u8,
}

impl CodingStateMachine {
    /// The machine's model is well formed and its current state indexes a
    /// valid row of the transition table.
    pub open spec fn wf(&self) -> bool {
        &&& self.m_model.wf()
        &&& (self.m_curr_state as int + 1) * self.m_model.class_factor as int
            <= self.m_model.state_table@.len()
    }

    /// A machine as freshly constructed from `m`.
    pub open spec fn spec_new(m: StateMachineModel) -> CodingStateMachine {
        CodingStateMachine { m_model: m, m_curr_byte_pos: 0, m_curr_char_len: 0, m_curr_state: MACHINE_START }
    }

    pub fn new(sm: StateMachineModel) -> (r: CodingStateMachine)
        requires
            sm.wf(),
        ensures
            r == CodingStateMachine::spec_new(sm),
            r.wf(),
    {
        CodingStateMachine {
            m_model: sm,
            m_curr_byte_pos: 0,
            m_curr_char_len: 0,
            m_curr_state: MACHINE_START,
        }
    }

    /// Returns the machine to the START state; the model and the character
    /// bookkeeping of the last character are untouched.
    pub fn reset(&mut self)
        ensures
            *final(self) == (CodingStateMachine { m_curr_state: MACHINE_START, ..*old(self) }),
            old(self).wf() ==> final(self).wf(),
    {
        self.m_curr_state = MACHINE_START;
    }

    /// Steps the machine on one byte and returns the new state. On entering
    /// from START, records the expected character length for the class of `c`
    /// and resets the intra-character byte counter.
    pub fn next_state(&mut self, c: u8) -> (r: u8)
        requires
            old(self).wf(),
        ensures
            final(self).wf(),
            final(self).m_model == old(self).m_model,
            final(self).m_curr_state == spec_next_state(old(self).m_model, old(self).m_curr_state, c),
            final(self).m_curr_char_len == spec_char_len_after(
                old(self).m_model,
                old(self).m_curr_state,
                old(self).m_curr_char_len,
                c,
            ),
            final(self).m_curr_byte_pos == spec_byte_pos_after(
                old(self).m_curr_state,
                old(self).m_curr_byte_pos,
            ),
            r == final(self).m_curr_state,
    {
        let byte_class: u8 = self.m_model.class_table[c as usize];
        if self.m_curr_state == MACHINE_START {
            self.m_curr_byte_pos = 0;
            self.m_curr_char_len = self.m_model.char_len_table[byte_class as usize];
        }
        let n: usize = self.m_model.state_table.len();
        proof {
            assert((self.m_curr_state as int + 1) * self.m_model.class_factor as int
                == self.m_curr_state as int * self.m_model.class_factor as int
                    + self.m_model.class_factor as int) by (nonlinear_arith);
            assert(self.m_curr_state as int * self.m_model.class_factor as int
                + self.m_model.class_factor as int <= n);
        }
        let idx: usize = (self.m_curr_state as usize) * (self.m_model.class_factor as usize)
            + (byte_class as usize);
        self.m_curr_state = self.m_model.state_table[idx];
        if self.m_curr_byte_pos < usize::MAX {
            self.m_curr_byte_pos = self.m_curr_byte_pos + 1;
        }
        self.m_curr_state
    }

    /// The expected length of the character currently being consumed.
    pub fn get_current_charlen(&self) -> (r: usize)
        ensures
            r == self.m_curr_char_len as usize,
    {
        self.m_curr_char_len as usize
    }

    /// The encoding name of the model driving this machine.
    pub fn get_coding_state_machine(&self) -> (r: &str)
        ensures
            r@ == self.m_model.name@,
    {
        self.m_model.name.as_str()
    }

    /// The language label of the model driving this machine.
    pub fn get_language(&self) -> (r: &str)
        ensures
            r@ == self.m_model.language@,
    {
        self.m_model.language.as_str()
    }
}

} // verus!
