use chardet::ProbingState;
use chardet::SBStateMachineModel;
use chardet::SingleByteCharsetProber;
use chardet::latin5_turkish_model;

/// A toy model: `a` and `b` are the two most frequent characters and every
/// bigram over them is very likely.
fn toy_model() -> SBStateMachineModel {
    let mut map = vec![255u8; 256];
    map[b'a' as usize] = 0;
    map[b'b' as usize] = 1;
    SBStateMachineModel::new(
        map,
        vec![3u8; 64 * 64],
        1,
        1,
        true,
        "toy".to_string(),
        "toyish".to_string(),
    )
    .unwrap()
}

#[test]
fn model_rejects_bad_matrix() {
    let m = SBStateMachineModel::new(
        vec![255u8; 256],
        vec![4u8; 64 * 64],
        1,
        1,
        true,
        "t".to_string(),
        "l".to_string(),
    );
    assert!(m.is_none());
}

#[test]
fn below_sample_threshold_reports_the_floor() {
    let p = SingleByteCharsetProber::new(toy_model(), false);
    assert_eq!(p.get_confidence(), 10000);
    let mut p = SingleByteCharsetProber::new(toy_model(), false);
    // One character gives no bigram yet.
    p.feed(b"a");
    assert_eq!(p.get_confidence(), 10000);
}

#[test]
fn all_positive_bigrams_reach_the_ceiling() {
    let mut p = SingleByteCharsetProber::new(toy_model(), false);
    p.feed(b"abab");
    // 3 sequences, all very likely, 4 frequent of 4 characters, ratio 1.
    assert_eq!(p.get_confidence(), 990000);
    assert_eq!(p.get_state(), ProbingState::Detecting);
}

#[test]
fn labels_come_from_the_model() {
    let p = SingleByteCharsetProber::new(toy_model(), false);
    assert_eq!(p.get_charset(), "toy");
    assert_eq!(p.get_language(), "toyish");
}

#[test]
fn turkish_model_labels() {
    let p = SingleByteCharsetProber::new(latin5_turkish_model(), false);
    assert_eq!(p.get_charset(), "ISO-8859-9");
    assert_eq!(p.get_language(), "Turkish");
    assert_eq!(p.get_confidence(), 10000);
}

#[test]
fn turkish_text_counts_sequences() {
    let mut p = SingleByteCharsetProber::new(latin5_turkish_model(), false);
    p.feed("bir iki malesef yeni".as_bytes());
    assert!(p.m_total_seqs > 0);
    assert_eq!(p.get_state(), ProbingState::Detecting);
}

#[test]
fn singlebyte_split_feeding_matches_whole_feeding() {
    let text = b"ababababababab";
    let mut whole = SingleByteCharsetProber::new(toy_model(), false);
    whole.feed(text);
    let mut split = SingleByteCharsetProber::new(toy_model(), false);
    split.feed(&text[..3]);
    split.feed(&text[3..]);
    assert_eq!(whole.get_confidence(), split.get_confidence());
    assert_eq!(whole.m_total_seqs, split.m_total_seqs);
    assert_eq!(whole.m_freq_char, split.m_freq_char);
}

#[test]
fn singlebyte_reset_restores_the_fresh_state() {
    let mut p = SingleByteCharsetProber::new(toy_model(), false);
    p.feed(b"abab");
    p.reset();
    assert_eq!(p.get_confidence(), 10000);
    assert_eq!(p.m_total_seqs, 0);
    p.feed(b"abab");
    assert_eq!(p.get_confidence(), 990000);
}
