use chardet::Latin1Prober;
use chardet::ProbingState;

#[test]
fn plain_english_scores_the_calibrated_ratio() {
    let mut p = Latin1Prober::new();
    p.feed(b"Hello world");
    // Eleven likely class pairs out of eleven, scaled by 0.73.
    assert_eq!(p.get_confidence(), 730000);
    assert_eq!(p.get_state(), ProbingState::Detecting);
    assert_eq!(p.get_charset(), "ISO-8859-1");
    assert_eq!(p.get_language(), "");
}

#[test]
fn undefined_byte_is_not_me() {
    let mut p = Latin1Prober::new();
    // 0xC0 is an accented capital vowel; 0x81 is undefined in Latin-1, and
    // a pair into the undefined class is illegal.
    let state = p.feed(&[0xC0, 0x81]);
    assert_eq!(state, ProbingState::NotMe);
    assert_eq!(p.get_confidence(), 10000);
}

#[test]
fn empty_session_scores_zero() {
    let p = Latin1Prober::new();
    assert_eq!(p.get_confidence(), 0);
}

#[test]
fn unlikely_pairs_are_penalized() {
    let mut p = Latin1Prober::new();
    // "a" then an accented capital vowel: a very unlikely pair in text.
    p.feed(&[b'a', 0xC0]);
    // Pairs: (other, small) likely, (small, accented capital) unlikely:
    // 1 - 20 is negative, floored at zero.
    assert_eq!(p.get_confidence(), 0);
}

#[test]
fn latin1_reset_restores_the_fresh_state() {
    let mut p = Latin1Prober::new();
    p.feed(&[0xC0, 0x81]);
    assert_eq!(p.get_state(), ProbingState::NotMe);
    p.reset();
    assert_eq!(p.get_state(), ProbingState::Detecting);
    p.feed(b"Hello world");
    assert_eq!(p.get_confidence(), 730000);
}
