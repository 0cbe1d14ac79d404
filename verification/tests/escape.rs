use chardet::EscCharsetProber;
use chardet::ProbingState;

#[test]
fn fresh_prober_reports_nothing() {
    let p = EscCharsetProber::new();
    assert_eq!(p.get_charset(), "");
    assert_eq!(p.get_language(), "");
    assert_eq!(p.get_confidence(), 0);
    assert_eq!(p.get_state(), ProbingState::Detecting);
}

#[test]
fn iso2022jp_escape_sequence_is_found() {
    let mut p = EscCharsetProber::new();
    let state = p.feed(b"\x1b$B");
    assert_eq!(state, ProbingState::FoundIt);
    assert_eq!(p.get_charset(), "ISO-2022-JP");
    assert_eq!(p.get_language(), "Japanese");
    assert_eq!(p.get_confidence(), 990000);
}

#[test]
fn escape_sequence_found_across_chunks() {
    let mut p = EscCharsetProber::new();
    assert_eq!(p.feed(b"\x1b"), ProbingState::Detecting);
    assert_eq!(p.feed(b"$B"), ProbingState::FoundIt);
    assert_eq!(p.get_charset(), "ISO-2022-JP");
}

#[test]
fn high_byte_rules_every_candidate_out() {
    let mut p = EscCharsetProber::new();
    let state = p.feed(&[0x80]);
    assert_eq!(state, ProbingState::NotMe);
    assert_eq!(p.get_confidence(), 0);
}

#[test]
fn reset_revives_the_pool() {
    let mut p = EscCharsetProber::new();
    p.feed(&[0x80]);
    assert_eq!(p.get_state(), ProbingState::NotMe);
    p.reset();
    assert_eq!(p.get_state(), ProbingState::Detecting);
    assert_eq!(p.feed(b"\x1b$B"), ProbingState::FoundIt);
    assert_eq!(p.get_charset(), "ISO-2022-JP");
}
