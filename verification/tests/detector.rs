use chardet::UniversalDetector;
use chardet::charset2encoding;
use chardet::detect;

#[test]
fn pure_ascii_reports_ascii_with_full_confidence() {
    let (charset, confidence, language) = detect(&b"The quick brown fox.".to_vec());
    assert_eq!(charset, "ascii");
    assert_eq!(confidence, 1000000);
    assert_eq!(language, "");
}

#[test]
fn utf8_signature_always_wins() {
    let (charset, confidence, language) = detect(&b"\xef\xbb\xbf\xff\x00garbage".to_vec());
    assert_eq!(charset, "UTF-8");
    assert_eq!(confidence, 1000000);
    assert_eq!(language, "");
    let (charset, confidence, _) = detect(&b"\xef\xbb\xbf".to_vec());
    assert_eq!(charset, "UTF-8");
    assert_eq!(confidence, 1000000);
}

#[test]
fn utf32le_and_utf16le_signatures() {
    let (charset, confidence, _) = detect(&b"\xff\xfe\x00\x00rest".to_vec());
    assert_eq!(charset, "UTF-32LE");
    assert_eq!(confidence, 1000000);
    let (charset, confidence, _) = detect(&b"\xff\xfeXY".to_vec());
    assert_eq!(charset, "UTF-16LE");
    assert_eq!(confidence, 1000000);
    let (charset, _, _) = detect(&b"\xff\xfe".to_vec());
    assert_eq!(charset, "UTF-16LE");
}

#[test]
fn big_endian_signatures() {
    let (charset, confidence, _) = detect(&b"\x00\x00\xfe\xffrest".to_vec());
    assert_eq!(charset, "UTF-32BE");
    assert_eq!(confidence, 1000000);
    let (charset, _, _) = detect(&b"\xfe\xffrest".to_vec());
    assert_eq!(charset, "UTF-16BE");
}

#[test]
fn empty_buffer_detects_nothing() {
    let (charset, confidence, language) = detect(&Vec::new());
    assert_eq!(charset, "");
    assert_eq!(confidence, 0);
    assert_eq!(language, "");
}

#[test]
fn escape_sequences_are_adopted_from_the_pool() {
    let (charset, confidence, language) = detect(&b"plain text \x1b$B".to_vec());
    assert_eq!(charset, "ISO-2022-JP");
    assert_eq!(confidence, 990000);
    assert_eq!(language, "Japanese");
}

#[test]
fn session_feeds_compose_across_chunks() {
    let mut whole = UniversalDetector::new();
    whole.feed(b"abc \x1b$B tail");
    let whole_result = whole.close();
    let mut split = UniversalDetector::new();
    split.feed(b"abc \x1b");
    split.feed(b"$B tail");
    let split_result = split.close();
    assert_eq!(whole_result, split_result);
    assert_eq!(whole_result.0, "ISO-2022-JP");
}

#[test]
fn close_is_idempotent() {
    let mut d = UniversalDetector::new();
    d.feed(b"just ascii");
    let first = d.close();
    let second = d.close();
    assert_eq!(first, second);
    assert_eq!(first.0, "ascii");
}

#[test]
fn reset_reproduces_a_fresh_run() {
    let mut d = UniversalDetector::new();
    d.feed(b"\xef\xbb\xbfdata");
    assert_eq!(d.close().0, "UTF-8");
    d.reset();
    d.feed(b"plain text");
    let after_reset = d.close();
    let mut fresh = UniversalDetector::new();
    fresh.feed(b"plain text");
    assert_eq!(after_reset, fresh.close());
}

#[test]
fn done_session_ignores_further_feeds() {
    let mut d = UniversalDetector::new();
    d.feed(b"\xff\xfeab");
    d.feed(b"\x1b$B");
    let (charset, confidence, _) = d.close();
    assert_eq!(charset, "UTF-16LE");
    assert_eq!(confidence, 1000000);
}

#[test]
fn high_byte_input_with_no_decisive_detector_reports_nothing() {
    // A lone high byte gives the pool nothing to go on: no member clears
    // the adoption threshold.
    let (charset, confidence, _) = detect(&b"\xd6\x81\x8d\x9e\xd6\x81".to_vec());
    assert_eq!(charset, "");
    assert_eq!(confidence, 0);
}

#[test]
fn charset_names_translate_to_canonical_encodings() {
    assert_eq!(charset2encoding(&"CP932".to_string()), Some("windows-31j"));
    assert_eq!(charset2encoding(&"CP949".to_string()), Some("windows-949"));
    assert_eq!(
        charset2encoding(&"MacCyrillic".to_string()),
        Some("x-mac-cyrillic")
    );
    assert_eq!(charset2encoding(&"UTF-8".to_string()), Some("UTF-8"));
}
