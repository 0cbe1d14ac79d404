use chardet::filter_high_byte_only;
use chardet::filter_international_words;
use chardet::filter_with_english_letters;

#[test]
fn high_byte_only_masks_ascii() {
    let input = b"ab\xe9c\x00\xff".to_vec();
    let out = filter_high_byte_only(&input);
    assert_eq!(out, b"\x20\x20\xe9\x20\x20\xff".to_vec());
}

#[test]
fn high_byte_only_empty() {
    let out = filter_high_byte_only(&[]);
    assert!(out.is_empty());
}

#[test]
fn international_words_keeps_high_byte_words() {
    // "ab\xe9cd" holds a high byte and is flushed with one space; "ef" is
    // plain English and dropped; the trailing "gh\xff" is kept without a
    // closing space.
    let input = b"ab\xe9cd ef gh\xff".to_vec();
    let out = filter_international_words(&input);
    assert_eq!(out, b"ab\xe9cd gh\xff".to_vec());
}

#[test]
fn international_words_drops_pure_english() {
    let out = filter_international_words(b"hello world");
    assert!(out.is_empty());
}

#[test]
fn english_letters_drops_tag_spans() {
    let input = b"Hello <b>world</b> ok\xc3\xa9!".to_vec();
    let out = filter_with_english_letters(&input);
    assert_eq!(out, b"Hello b b ok\xc3\xa9 ".to_vec());
}

#[test]
fn english_letters_keeps_plain_text() {
    let out = filter_with_english_letters(b"Hello world");
    assert_eq!(out, b"Hello world".to_vec());
}
