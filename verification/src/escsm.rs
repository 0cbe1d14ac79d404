//! State-machine models for the escape-sequence encodings (HZ-GB-2312 and
//! the ISO-2022 family). The numeric tables are the supplied detection data;
//! each constructor validates them and hands back a well-formed model.

use vstd::prelude::*;
use vstd::slice::slice_to_vec;

use crate::codingstatemachine::StateMachineModel;
use crate::enums::MACHINE_ERROR;
use crate::enums::MACHINE_ITS_ME;

verus! {

/// A one-class model whose every byte is invalid: the stand-in used if a
/// supplied table set fails validation, so that construction never panics.
/// It carries the requested labels but recognizes nothing.
pub fn fallback_sm_model(name: String, language: String) -> (m: StateMachineModel)
    ensures
        m.wf(),
        m.name@ == name@,
        m.language@ == language@,
{
    let mut class_table: Vec<u8> = Vec::new();
    let mut i: usize = 0;
    while i < 256
        invariant
            i <= 256,
            class_table@.len() == i,
            forall|k: int| 0 <= k < i ==> class_table@[k] == 0,
        decreases 256 - i,
    {
        class_table.push(0);
        i = i + 1;
    }
    let mut state_table: Vec<u8> = Vec::new();
    state_table.push(MACHINE_ERROR);
    state_table.push(MACHINE_ERROR);
    state_table.push(MACHINE_ITS_ME);
    let mut char_len_table: Vec<u8> = Vec::new();
    char_len_table.push(0);
    let m = StateMachineModel { class_table, class_factor: 1, state_table, char_len_table, name, language };
    assert(m.state_table@ =~= seq![MACHINE_ERROR, MACHINE_ERROR, MACHINE_ITS_ME]);
    assert forall|j: int|
        0 <= j < m.state_table@.len() implies (m.state_table@[j] as int + 1)
        * m.class_factor as int <= m.state_table@.len() by {
        assert(m.state_table@[j] <= 2);
        assert((m.state_table@[j] as int + 1) * m.class_factor as int <= 3) by (nonlinear_arith)
            requires
                m.state_table@[j] <= 2,
                m.class_factor == 1,
        ;
    };
    m
}

/// Builds a model from supplied tables, falling back to the inert model with
/// the same labels if the tables fail validation.
fn checked_sm_model(
    class_table: Vec<u8>,
    class_factor: u8,
    state_table: Vec<u8>,
    char_len_table: Vec<u8>,
    name: &str,
    language: &str,
) -> (m: StateMachineModel)
    ensures
        m.wf(),
        m.name@ == name@,
        m.language@ == language@,
{
    match StateMachineModel::new(
        class_table,
        class_factor,
        state_table,
        char_len_table,
        name.to_owned(),
        language.to_owned(),
    ) {
        Some(m) => m,
        None => fallback_sm_model(name.to_owned(), language.to_owned()),
    }
}

/// The supplied byte-class and transition tables for HZ-GB-2312.
pub fn hz_sm_model() -> (m: StateMachineModel)
    ensures
        m.wf(),
        m.name@ == "HZ-GB-2312"@,
        m.language@ == "Chinese"@,
{
    let cls: [u8; 256] = [
        1, 0, 0, 0, 0, 0, 0, 0, 0, 0, 0, 0, 0, 0, 0, 0,
        0, 0, 0, 0, 0, 0, 0, 0, 0, 0, 0, 1, 0, 0, 0, 0,
        0, 0, 0, 0, 0, 0, 0, 0, 0, 0, 0, 0, 0, 0, 0, 0,
        0, 0, 0, 0, 0, 0, 0, 0, 0, 0, 0, 0, 0, 0, 0, 0,
        0, 0, 0, 0, 0, 0, 0, 0, 0, 0, 0, 0, 0, 0, 0, 0,
        0, 0, 0, 0, 0, 0, 0, 0, 0, 0, 0, 0, 0, 0, 0, 0,
        0, 0, 0, 0, 0, 0, 0, 0, 0, 0, 0, 0, 0, 0, 0, 0,
        0, 0, 0, 0, 0, 0, 0, 0, 0, 0, 0, 4, 0, 5, 2, 0,
        1, 1, 1, 1, 1, 1, 1, 1, 1, 1, 1, 1, 1, 1, 1, 1,
        1, 1, 1, 1, 1, 1, 1, 1, 1, 1, 1, 1, 1, 1, 1, 1,
        1, 1, 1, 1, 1, 1, 1, 1, 1, 1, 1, 1, 1, 1, 1, 1,
        1, 1, 1, 1, 1, 1, 1, 1, 1, 1, 1, 1, 1, 1, 1, 1,
        1, 1, 1, 1, 1, 1, 1, 1, 1, 1, 1, 1, 1, 1, 1, 1,
        1, 1, 1, 1, 1, 1, 1, 1, 1, 1, 1, 1, 1, 1, 1, 1,
        1, 1, 1, 1, 1, 1, 1, 1, 1, 1, 1, 1, 1, 1, 1, 1,
        1, 1, 1, 1, 1, 1, 1, 1, 1, 1, 1, 1, 1, 1, 1, 1,
    ];
    let st: [u8; 48] = [
        0, 1, 3, 0, 0, 0, 1, 1, 1, 1, 1, 1, 2, 2, 2, 2,
        2, 2, 1, 1, 0, 0, 4, 1, 5, 1, 6, 1, 5, 5, 4, 1,
        4, 1, 4, 4, 4, 1, 4, 1, 4, 2, 0, 0, 0, 0, 0, 0,
    ];
    let cl: [u8; 6] = [
        0, 0, 0, 0, 0, 0,
    ];
    checked_sm_model(
        slice_to_vec(cls.as_slice()),
        6,
        slice_to_vec(st.as_slice()),
        slice_to_vec(cl.as_slice()),
        "HZ-GB-2312",
        "Chinese",
    )
}


/// The supplied byte-class and transition tables for ISO-2022-CN.
pub fn iso2022cn_sm_model() -> (m: StateMachineModel)
    ensures
        m.wf(),
        m.name@ == "ISO-2022-CN"@,
        m.language@ == "Chinese"@,
{
    let cls: [u8; 256] = [
        2, 0, 0, 0, 0, 0, 0, 0, 0, 0, 0, 0, 0, 0, 0, 0,
        0, 0, 0, 0, 0, 0, 0, 0, 0, 0, 0, 1, 0, 0, 0, 0,
        0, 0, 0, 0, 0, 0, 0, 0, 0, 3, 0, 0, 0, 0, 0, 0,
        0, 0, 0, 0, 0, 0, 0, 0, 0, 0, 0, 0, 0, 0, 0, 0,
        0, 0, 0, 4, 0, 0, 0, 0, 0, 0, 0, 0, 0, 0, 0, 0,
        0, 0, 0, 0, 0, 0, 0, 0, 0, 0, 0, 0, 0, 0, 0, 0,
        0, 0, 0, 0, 0, 0, 0, 0, 0, 0, 0, 0, 0, 0, 0, 0,
        0, 0, 0, 0, 0, 0, 0, 0, 0, 0, 0, 0, 0, 0, 0, 0,
        2, 2, 2, 2, 2, 2, 2, 2, 2, 2, 2, 2, 2, 2, 2, 2,
        2, 2, 2, 2, 2, 2, 2, 2, 2, 2, 2, 2, 2, 2, 2, 2,
        2, 2, 2, 2, 2, 2, 2, 2, 2, 2, 2, 2, 2, 2, 2, 2,
        2, 2, 2, 2, 2, 2, 2, 2, 2, 2, 2, 2, 2, 2, 2, 2,
        2, 2, 2, 2, 2, 2, 2, 2, 2, 2, 2, 2, 2, 2, 2, 2,
        2, 2, 2, 2, 2, 2, 2, 2, 2, 2, 2, 2, 2, 2, 2, 2,
        2, 2, 2, 2, 2, 2, 2, 2, 2, 2, 2, 2, 2, 2, 2, 2,
        2, 2, 2, 2, 2, 2, 2, 2, 2, 2, 2, 2, 2, 2, 2, 2,
    ];
    let st: [u8; 64] = [
        0, 3, 1, 0, 0, 0, 0, 0, 0, 1, 1, 1, 1, 1, 1, 1,
        1, 1, 2, 2, 2, 2, 2, 2, 2, 2, 2, 1, 1, 1, 4, 1,
        1, 1, 1, 2, 1, 1, 1, 1, 5, 6, 1, 1, 1, 1, 1, 1,
        1, 1, 1, 2, 1, 1, 1, 1, 1, 1, 1, 1, 1, 2, 1, 0,
    ];
    let cl: [u8; 9] = [
        0, 0, 0, 0, 0, 0, 0, 0, 0,
    ];
    checked_sm_model(
        slice_to_vec(cls.as_slice()),
        9,
        slice_to_vec(st.as_slice()),
        slice_to_vec(cl.as_slice()),
        "ISO-2022-CN",
        "Chinese",
    )
}


/// The supplied byte-class and transition tables for ISO-2022-JP.
pub fn iso2022jp_sm_model() -> (m: StateMachineModel)
    ensures
        m.wf(),
        m.name@ == "ISO-2022-JP"@,
        m.language@ == "Japanese"@,
{
    let cls: [u8; 256] = [
        2, 0, 0, 0, 0, 0, 0, 0, 0, 0, 0, 0, 0, 0, 2, 2,
        0, 0, 0, 0, 0, 0, 0, 0, 0, 0, 0, 1, 0, 0, 0, 0,
        0, 0, 0, 0, 7, 0, 0, 0, 3, 0, 0, 0, 0, 0, 0, 0,
        0, 0, 0, 0, 0, 0, 0, 0, 0, 0, 0, 0, 0, 0, 0, 0,
        6, 0, 4, 0, 8, 0, 0, 0, 0, 9, 5, 0, 0, 0, 0, 0,
        0, 0, 0, 0, 0, 0, 0, 0, 0, 0, 0, 0, 0, 0, 0, 0,
        0, 0, 0, 0, 0, 0, 0, 0, 0, 0, 0, 0, 0, 0, 0, 0,
        0, 0, 0, 0, 0, 0, 0, 0, 0, 0, 0, 0, 0, 0, 0, 0,
        2, 2, 2, 2, 2, 2, 2, 2, 2, 2, 2, 2, 2, 2, 2, 2,
        2, 2, 2, 2, 2, 2, 2, 2, 2, 2, 2, 2, 2, 2, 2, 2,
        2, 2, 2, 2, 2, 2, 2, 2, 2, 2, 2, 2, 2, 2, 2, 2,
        2, 2, 2, 2, 2, 2, 2, 2, 2, 2, 2, 2, 2, 2, 2, 2,
        2, 2, 2, 2, 2, 2, 2, 2, 2, 2, 2, 2, 2, 2, 2, 2,
        2, 2, 2, 2, 2, 2, 2, 2, 2, 2, 2, 2, 2, 2, 2, 2,
        2, 2, 2, 2, 2, 2, 2, 2, 2, 2, 2, 2, 2, 2, 2, 2,
        2, 2, 2, 2, 2, 2, 2, 2, 2, 2, 2, 2, 2, 2, 2, 2,
    ];
    let st: [u8; 72] = [
        0, 3, 1, 0, 0, 0, 0, 0, 0, 0, 1, 1, 1, 1, 1, 1,
        1, 1, 1, 1, 2, 2, 2, 2, 2, 2, 2, 2, 2, 2, 1, 1,
        1, 5, 1, 1, 1, 4, 1, 1, 1, 1, 1, 6, 2, 1, 2, 1,
        1, 1, 1, 1, 1, 1, 2, 2, 1, 1, 1, 2, 1, 1, 1, 1,
        1, 1, 1, 1, 2, 1, 0, 0,
    ];
    let cl: [u8; 10] = [
        0, 0, 0, 0, 0, 0, 0, 0, 0, 0,
    ];
    checked_sm_model(
        slice_to_vec(cls.as_slice()),
        10,
        slice_to_vec(st.as_slice()),
        slice_to_vec(cl.as_slice()),
        "ISO-2022-JP",
        "Japanese",
    )
}


/// The supplied byte-class and transition tables for ISO-2022-KR.
pub fn iso2022kr_sm_model() -> (m: StateMachineModel)
    ensures
        m.wf(),
        m.name@ == "ISO-2022-KR"@,
        m.language@ == "Korean"@,
{
    let cls: [u8; 256] = [
        2, 0, 0, 0, 0, 0, 0, 0, 0, 0, 0, 0, 0, 0, 0, 0,
        0, 0, 0, 0, 0, 0, 0, 0, 0, 0, 0, 1, 0, 0, 0, 0,
        0, 0, 0, 0, 3, 0, 0, 0, 0, 4, 0, 0, 0, 0, 0, 0,
        0, 0, 0, 0, 0, 0, 0, 0, 0, 0, 0, 0, 0, 0, 0, 0,
        0, 0, 0, 5, 0, 0, 0, 0, 0, 0, 0, 0, 0, 0, 0, 0,
        0, 0, 0, 0, 0, 0, 0, 0, 0, 0, 0, 0, 0, 0, 0, 0,
        0, 0, 0, 0, 0, 0, 0, 0, 0, 0, 0, 0, 0, 0, 0, 0,
        0, 0, 0, 0, 0, 0, 0, 0, 0, 0, 0, 0, 0, 0, 0, 0,
        2, 2, 2, 2, 2, 2, 2, 2, 2, 2, 2, 2, 2, 2, 2, 2,
        2, 2, 2, 2, 2, 2, 2, 2, 2, 2, 2, 2, 2, 2, 2, 2,
        2, 2, 2, 2, 2, 2, 2, 2, 2, 2, 2, 2, 2, 2, 2, 2,
        2, 2, 2, 2, 2, 2, 2, 2, 2, 2, 2, 2, 2, 2, 2, 2,
        2, 2, 2, 2, 2, 2, 2, 2, 2, 2, 2, 2, 2, 2, 2, 2,
        2, 2, 2, 2, 2, 2, 2, 2, 2, 2, 2, 2, 2, 2, 2, 2,
        2, 2, 2, 2, 2, 2, 2, 2, 2, 2, 2, 2, 2, 2, 2, 2,
        2, 2, 2, 2, 2, 2, 2, 2, 2, 2, 2, 2, 2, 2, 2, 2,
    ];
    let st: [u8; 40] = [
        0, 3, 1, 0, 0, 0, 1, 1, 1, 1, 1, 1, 2, 2, 2, 2,
        2, 2, 1, 1, 1, 4, 1, 1, 1, 1, 1, 1, 5, 1, 1, 1,
        1, 1, 1, 2, 0, 0, 0, 0,
    ];
    let cl: [u8; 6] = [
        0, 0, 0, 0, 0, 0,
    ];
    checked_sm_model(
        slice_to_vec(cls.as_slice()),
        6,
        slice_to_vec(st.as_slice()),
        slice_to_vec(cl.as_slice()),
        "ISO-2022-KR",
        "Korean",
    )
}

} // verus!
