use chardet::CharDistributionAnalysis;
use chardet::CodingStateMachine;
use chardet::ContextModel;
use chardet::JapaneseContextAnalysis;
use chardet::MultiByteCharsetProber;
use chardet::OrderScheme;
use chardet::ProbingState;
use chardet::SJISProber;
use chardet::StateMachineModel;

/// A miniature double-byte model: 0xB0 leads a 2-byte character, 0xA1
/// continues one, everything else is a 1-byte character.
fn mini_mb_model() -> StateMachineModel {
    let mut cls = vec![0u8; 256];
    cls[0xB0] = 1;
    cls[0xA1] = 2;
    let st = vec![
        0, 3, 1, // START
        1, 1, 1, // ERROR
        2, 2, 2, // ITS_ME
        1, 1, 0, // after the lead, the trail completes the character
    ];
    let cl = vec![1u8, 2, 0];
    StateMachineModel::new(cls, 3, st, cl, "mini-mb".to_string(), "none".to_string()).unwrap()
}

fn mini_prober() -> MultiByteCharsetProber {
    MultiByteCharsetProber::new(
        CodingStateMachine::new(mini_mb_model()),
        CharDistributionAnalysis::new(OrderScheme::EucKr, vec![0u16; 100], 1, 1),
        "mini-mb".to_string(),
        "none".to_string(),
    )
}

#[test]
fn frequent_characters_reach_the_ceiling() {
    let mut p = mini_prober();
    let mut buffer: Vec<u8> = Vec::new();
    for _ in 0..5 {
        buffer.extend_from_slice(&[0xB0, 0xA1]);
    }
    let state = p.feed(&buffer);
    // Five frequent characters: decisive ratio but far below the
    // enough-data threshold, so no early exit.
    assert_eq!(state, ProbingState::Detecting);
    assert_eq!(p.get_confidence(), 990000);
}

#[test]
fn structural_error_is_not_me() {
    let mut p = mini_prober();
    assert_eq!(p.feed(&[0xB0, 0x41]), ProbingState::NotMe);
    assert_eq!(p.get_state(), ProbingState::NotMe);
}

#[test]
fn labels_are_static_per_instance() {
    let p = mini_prober();
    assert_eq!(p.get_charset(), "mini-mb");
    assert_eq!(p.get_language(), "none");
}

#[test]
fn multibyte_split_feeding_matches_whole_feeding() {
    // The cut falls inside a character: the 2-byte carry buffer is the only
    // state crossing the boundary.
    let mut buffer: Vec<u8> = Vec::new();
    for _ in 0..6 {
        buffer.extend_from_slice(&[0xB0, 0xA1]);
    }
    let mut whole = mini_prober();
    whole.feed(&buffer);
    let mut split = mini_prober();
    split.feed(&buffer[..3]);
    split.feed(&buffer[3..]);
    assert_eq!(whole.get_state(), split.get_state());
    assert_eq!(whole.get_confidence(), split.get_confidence());
    assert_eq!(
        whole.m_distribution_analyzer.m_total_chars,
        split.m_distribution_analyzer.m_total_chars
    );
}

#[test]
fn multibyte_reset_restores_the_fresh_state() {
    let mut p = mini_prober();
    p.feed(&[0xB0, 0x41]);
    assert_eq!(p.get_state(), ProbingState::NotMe);
    p.reset();
    assert_eq!(p.get_state(), ProbingState::Detecting);
    assert_eq!(p.get_confidence(), 10000);
}

fn mini_context_model() -> ContextModel {
    // Two-byte characters led by 0x82 with trails 0xA0..=0xA4; every order
    // pair scores category 1.
    ContextModel::new(
        0x82,
        0xA0,
        0xA4,
        vec![1u8; 25],
        "mini-sjis".to_string(),
        "Japanese".to_string(),
    )
    .unwrap()
}

#[test]
fn context_analyzer_counts_tracked_pairs() {
    let mut ctx = JapaneseContextAnalysis::new(mini_context_model());
    assert_eq!(ctx.get_confidence(), None);
    for _ in 0..8 {
        ctx.feed(0x82, 0xA1, 2);
    }
    // Seven consecutive tracked pairs, none illegal.
    assert_eq!(ctx.m_total_rel, 7);
    assert_eq!(ctx.get_confidence(), Some(1000000));
    assert!(!ctx.got_enough_data());
    assert_eq!(ctx.get_charset(), "mini-sjis");
}

#[test]
fn context_analyzer_untracked_character_breaks_the_chain() {
    let mut ctx = JapaneseContextAnalysis::new(mini_context_model());
    ctx.feed(0x82, 0xA1, 2);
    ctx.feed(0x41, 0x41, 1);
    ctx.feed(0x82, 0xA1, 2);
    // No two consecutive tracked characters yet.
    assert_eq!(ctx.m_total_rel, 0);
}

fn mini_sjis_model() -> StateMachineModel {
    let mut cls = vec![0u8; 256];
    cls[0x82] = 1;
    for t in 0xA0..=0xA4u16 {
        cls[t as usize] = 2;
    }
    let st = vec![
        0, 3, 1, // START
        1, 1, 1, // ERROR
        2, 2, 2, // ITS_ME
        1, 1, 0, // trail completes
    ];
    let cl = vec![1u8, 2, 0];
    StateMachineModel::new(cls, 3, st, cl, "mini-sjis-sm".to_string(), "Japanese".to_string())
        .unwrap()
}

#[test]
fn context_prober_reports_the_larger_score() {
    let mut p = SJISProber::new(
        CodingStateMachine::new(mini_sjis_model()),
        CharDistributionAnalysis::new(OrderScheme::Sjis, vec![0u16; 100], 1, 1),
        JapaneseContextAnalysis::new(mini_context_model()),
        "Japanese".to_string(),
    );
    assert_eq!(p.get_charset(), "mini-sjis");
    assert_eq!(p.get_language(), "Japanese");
    let mut buffer: Vec<u8> = Vec::new();
    for _ in 0..8 {
        buffer.extend_from_slice(&[0x82, 0xA1]);
    }
    let state = p.feed(&buffer);
    assert_eq!(state, ProbingState::Detecting);
    // The context score (all pairs legal) beats the distribution score
    // (pairs outside the Shift-JIS double-byte ranges).
    assert_eq!(p.get_confidence(), 1000000);
}

#[test]
fn context_prober_split_feeding_matches_whole() {
    let mut buffer: Vec<u8> = Vec::new();
    for _ in 0..8 {
        buffer.extend_from_slice(&[0x82, 0xA1]);
    }
    let make = || {
        SJISProber::new(
            CodingStateMachine::new(mini_sjis_model()),
            CharDistributionAnalysis::new(OrderScheme::Sjis, vec![0u16; 100], 1, 1),
            JapaneseContextAnalysis::new(mini_context_model()),
            "Japanese".to_string(),
        )
    };
    let mut whole = make();
    whole.feed(&buffer);
    let mut split = make();
    split.feed(&buffer[..5]);
    split.feed(&buffer[5..]);
    assert_eq!(whole.get_state(), split.get_state());
    assert_eq!(whole.get_confidence(), split.get_confidence());
}
