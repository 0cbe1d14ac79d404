use chardet::ProbingState;
use chardet::StateMachineModel;
use chardet::UTF8Prober;

/// A miniature three-byte-character model: 0xE0 leads a 3-byte character,
/// 0xA0 continues one, everything else is a 1-byte character.
fn mini_utf8_model() -> StateMachineModel {
    let mut cls = vec![0u8; 256];
    cls[0xE0] = 1;
    cls[0xA0] = 2;
    let st = vec![
        0, 3, 1, // START: ascii stays, lead goes to 3, stray continuation errors
        1, 1, 1, // ERROR
        2, 2, 2, // ITS_ME
        1, 1, 4, // after the lead, only a continuation
        1, 1, 0, // after two bytes, the last continuation completes the character
    ];
    let cl = vec![1u8, 3, 0];
    StateMachineModel::new(cls, 3, st, cl, "mini-utf-8".to_string(), "".to_string()).unwrap()
}

#[test]
fn fresh_prober_has_floor_confidence() {
    let p = UTF8Prober::new(mini_utf8_model());
    assert_eq!(p.get_confidence(), 10000);
    assert_eq!(p.get_charset(), "utf-8");
    assert_eq!(p.get_language(), "");
    assert_eq!(p.get_state(), ProbingState::Detecting);
}

#[test]
fn confidence_curve_halves_the_doubt() {
    let mut p = UTF8Prober::new(mini_utf8_model());
    let expected = [10000u32, 505000, 752500, 876250, 938125, 969063];
    for (chars_seen, want) in expected.iter().enumerate() {
        assert_eq!(p.get_confidence(), *want, "after {} characters", chars_seen);
        p.feed(&[0xE0, 0xA0, 0xA0]);
    }
    assert_eq!(p.get_confidence(), 990000);
}

#[test]
fn multibyte_run_drives_found_it_at_the_ceiling() {
    let mut p = UTF8Prober::new(mini_utf8_model());
    let mut buffer: Vec<u8> = Vec::new();
    for _ in 0..6 {
        buffer.extend_from_slice(&[0xE0, 0xA0, 0xA0]);
    }
    let state = p.feed(&buffer);
    assert_eq!(state, ProbingState::FoundIt);
    assert_eq!(p.get_confidence(), 990000);
}

#[test]
fn stray_continuation_is_not_me() {
    let mut p = UTF8Prober::new(mini_utf8_model());
    assert_eq!(p.feed(&[0xA0]), ProbingState::NotMe);
}

#[test]
fn utf8_split_feeding_matches_whole_feeding() {
    // The same buffer fed whole and fed in two chunks cut inside a
    // character yields the same verdict and confidence.
    let mut buffer: Vec<u8> = Vec::new();
    for _ in 0..4 {
        buffer.extend_from_slice(&[0xE0, 0xA0, 0xA0]);
    }
    let mut whole = UTF8Prober::new(mini_utf8_model());
    whole.feed(&buffer);
    let mut split = UTF8Prober::new(mini_utf8_model());
    split.feed(&buffer[..5]);
    split.feed(&buffer[5..]);
    assert_eq!(whole.get_state(), split.get_state());
    assert_eq!(whole.get_confidence(), split.get_confidence());
}

#[test]
fn utf8_reset_restores_the_fresh_state() {
    let mut p = UTF8Prober::new(mini_utf8_model());
    p.feed(&[0xE0, 0xA0, 0xA0]);
    p.reset();
    assert_eq!(p.get_confidence(), 10000);
    assert_eq!(p.get_state(), ProbingState::Detecting);
    let mut buffer: Vec<u8> = Vec::new();
    for _ in 0..6 {
        buffer.extend_from_slice(&[0xE0, 0xA0, 0xA0]);
    }
    assert_eq!(p.feed(&buffer), ProbingState::FoundIt);
}
