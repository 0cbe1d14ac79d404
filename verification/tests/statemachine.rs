use chardet::CodingStateMachine;
use chardet::StateMachineModel;
use chardet::hz_sm_model;
use chardet::iso2022jp_sm_model;

fn mini_tables() -> (Vec<u8>, u8, Vec<u8>, Vec<u8>) {
    // One class, three states: START loops, ERROR and ITS_ME absorb.
    let class_table = vec![0u8; 256];
    let state_table = vec![0u8, 1, 2];
    let char_len_table = vec![1u8];
    (class_table, 1, state_table, char_len_table)
}

#[test]
fn model_accepts_well_formed_tables() {
    let (cls, factor, st, cl) = mini_tables();
    let m = StateMachineModel::new(cls, factor, st, cl, "t".to_string(), "l".to_string());
    assert!(m.is_some());
}

#[test]
fn model_rejects_short_class_table() {
    let (_, factor, st, cl) = mini_tables();
    let m = StateMachineModel::new(vec![0u8; 255], factor, st, cl, "t".to_string(), "l".to_string());
    assert!(m.is_none());
}

#[test]
fn model_rejects_class_out_of_range() {
    let (mut cls, factor, st, cl) = mini_tables();
    cls[7] = 1;
    let m = StateMachineModel::new(cls, factor, st, cl, "t".to_string(), "l".to_string());
    assert!(m.is_none());
}

#[test]
fn model_rejects_transition_out_of_range() {
    let (cls, factor, mut st, cl) = mini_tables();
    st[0] = 9;
    let m = StateMachineModel::new(cls, factor, st, cl, "t".to_string(), "l".to_string());
    assert!(m.is_none());
}

#[test]
fn model_rejects_non_absorbing_error_row() {
    let (cls, factor, mut st, cl) = mini_tables();
    st[1] = 0;
    let m = StateMachineModel::new(cls, factor, st, cl, "t".to_string(), "l".to_string());
    assert!(m.is_none());
}

#[test]
fn hz_model_labels() {
    let machine = CodingStateMachine::new(hz_sm_model());
    assert_eq!(machine.get_coding_state_machine(), "HZ-GB-2312");
    assert_eq!(machine.get_language(), "Chinese");
}

#[test]
fn hz_machine_steps_and_resets() {
    let mut machine = CodingStateMachine::new(hz_sm_model());
    // Plain ASCII keeps the HZ machine in START.
    assert_eq!(machine.next_state(b'A'), 0);
    // The HZ shift-in tilde moves it to an intermediate state.
    assert_eq!(machine.next_state(b'~'), 3);
    machine.reset();
    assert_eq!(machine.next_state(b'A'), 0);
}

#[test]
fn iso2022jp_recognizes_its_escape_sequence() {
    let mut machine = CodingStateMachine::new(iso2022jp_sm_model());
    assert_eq!(machine.next_state(0x1B), 3);
    assert_eq!(machine.next_state(b'$'), 4);
    // ITS_ME: the sequence ESC $ B is unambiguous proof of ISO-2022-JP.
    assert_eq!(machine.next_state(b'B'), 2);
}
