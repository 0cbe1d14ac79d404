//! Byte-stream filters shared by the detectors: masking ASCII to spaces,
//! stripping embedded English words around international words, and keeping
//! English letters while dropping markup-like tag spans.

use vstd::prelude::*;

verus! {

/// An ASCII letter, `A`-`Z` or `a`-`z`.
pub open spec fn is_ascii_letter(c: u8) -> bool {
    (65 <= c && c <= 90) || (97 <= c && c <= 122)
}

/// Every byte below 0x80 replaced by a space, high bytes kept.
pub open spec fn spec_filter_high_byte_only(bytes: Seq<u8>) -> Seq<u8> {
    Seq::new(bytes.len(), |i: int| if bytes[i] < 0x80 { 0x20u8 } else { bytes[i] })
}

/// Replaces every byte below 0x80 with a space and keeps high bytes, so that
/// only the high-byte structure of the buffer remains.
pub fn filter_high_byte_only(byte_str: &[u8]) -> (filtered: Vec<u8>)
    ensures
        filtered@ == spec_filter_high_byte_only(byte_str@),
{
    let mut filtered: Vec<u8> = Vec::new();
    let mut curr: usize = 0;
    while curr < byte_str.len()
        invariant
            curr <= byte_str@.len(),
            filtered@ =~= spec_filter_high_byte_only(byte_str@).take(curr as int),
        decreases byte_str@.len() - curr,
    {
        let buf_char = byte_str[curr];
        if buf_char < 0x80 {
            filtered.push(0x20);
        } else {
            filtered.push(buf_char);
        }
        curr = curr + 1;
    }
    proof {
        assert(filtered@ =~= spec_filter_high_byte_only(byte_str@));
    }
    filtered
}

/// The high-byte mask is a pointwise map, so it distributes over
/// concatenation.
pub proof fn lemma_filter_high_byte_only_split(a: Seq<u8>, b: Seq<u8>)
    ensures
        spec_filter_high_byte_only(a + b) == spec_filter_high_byte_only(a)
            + spec_filter_high_byte_only(b),
{
    assert(spec_filter_high_byte_only(a + b) =~= spec_filter_high_byte_only(a)
        + spec_filter_high_byte_only(b));
}

/// The walking state of the international-words filter: what has been
/// emitted, whether the current word holds a high byte, and where it starts.
pub struct IntlWordsState {
    pub filtered: Seq<u8>,
    pub meet_msb: bool,
    pub prev: int,
}

/// One step of the international-words filter on the byte at `curr`.
pub open spec fn intl_words_step(bytes: Seq<u8>, st: IntlWordsState, curr: int) -> IntlWordsState {
    let c = bytes[curr];
    if c >= 0x80 {
        IntlWordsState { meet_msb: true, ..st }
    } else if !is_ascii_letter(c) {
        if st.meet_msb && curr > st.prev {
            IntlWordsState {
                filtered: st.filtered + bytes.subrange(st.prev, curr) + seq![0x20u8],
                meet_msb: false,
                prev: curr + 1,
            }
        } else {
            IntlWordsState { prev: curr + 1, ..st }
        }
    } else {
        st
    }
}

/// The filter state after the first `n` bytes.
pub open spec fn intl_words_scan(bytes: Seq<u8>, n: nat) -> IntlWordsState
    decreases n,
{
    if n == 0 {
        IntlWordsState { filtered: Seq::<u8>::empty(), meet_msb: false, prev: 0 }
    } else {
        intl_words_step(bytes, intl_words_scan(bytes, (n - 1) as nat), n - 1)
    }
}

/// The result of the international-words filter: words holding at least one
/// high byte are kept, each followed by one space; a trailing such word is
/// kept without a closing space; everything else is dropped.
pub open spec fn spec_filter_international_words(bytes: Seq<u8>) -> Seq<u8> {
    let st = intl_words_scan(bytes, bytes.len());
    if st.meet_msb && bytes.len() > st.prev {
        st.filtered + bytes.subrange(st.prev, bytes.len() as int)
    } else {
        st.filtered
    }
}

/// Keeps only "international words": maximal letter or high-byte runs that
/// hold at least one high byte, each flushed with a single trailing space,
/// so that embedded plain-English words do not bias the statistics.
pub fn filter_international_words(byte_str: &[u8]) -> (filtered: Vec<u8>)
    ensures
        filtered@ == spec_filter_international_words(byte_str@),
{
    let mut filtered: Vec<u8> = Vec::new();
    let mut meet_msb: bool = false;
    let mut prev: usize = 0;
    let mut curr: usize = 0;
    while curr < byte_str.len()
        invariant
            curr <= byte_str@.len(),
            prev <= curr,
            intl_words_scan(byte_str@, curr as nat) == (IntlWordsState {
                filtered: filtered@,
                meet_msb: meet_msb,
                prev: prev as int,
            }),
        decreases byte_str@.len() - curr,
    {
        let ghost st_before = intl_words_scan(byte_str@, curr as nat);
        let buf_char = byte_str[curr];
        if buf_char >= 0x80 {
            meet_msb = true;
        } else if (buf_char < 65) || ((buf_char > 90) && (buf_char < 97)) || (buf_char > 122) {
            if meet_msb && (curr > prev) {
                let ghost emitted_before = filtered@;
                let mut p: usize = prev;
                while p < curr
                    invariant
                        prev <= p <= curr,
                        curr < byte_str@.len(),
                        filtered@ =~= emitted_before + byte_str@.subrange(prev as int, p as int),
                    decreases curr - p,
                {
                    filtered.push(byte_str[p]);
                    p = p + 1;
                }
                filtered.push(0x20);
                proof {
                    assert(filtered@ =~= emitted_before + byte_str@.subrange(
                        prev as int,
                        curr as int,
                    ) + seq![0x20u8]);
                }
                meet_msb = false;
            }
            prev = curr + 1;
        }
        curr = curr + 1;
        proof {
            assert(intl_words_scan(byte_str@, curr as nat) == intl_words_step(
                byte_str@,
                st_before,
                curr as int - 1,
            ));
        }
    }
    if meet_msb && byte_str.len() > prev {
        let ghost emitted_before = filtered@;
        let mut p: usize = prev;
        while p < byte_str.len()
            invariant
                prev <= p <= byte_str@.len(),
                filtered@ =~= emitted_before + byte_str@.subrange(prev as int, p as int),
            decreases byte_str@.len() - p,
        {
            filtered.push(byte_str[p]);
            p = p + 1;
        }
    }
    proof {
        assert(filtered@ =~= spec_filter_international_words(byte_str@));
    }
    filtered
}

/// The walking state of the English-letters filter: what has been emitted,
/// whether the walk is inside a `<`...`>` tag span, and where the kept run
/// starts.
pub struct EnglishLettersState {
    pub filtered: Seq<u8>,
    pub intag: bool,
    pub prev: int,
}

/// One step of the English-letters filter on the byte at `curr`.
pub open spec fn english_letters_step(
    bytes: Seq<u8>,
    st: EnglishLettersState,
    curr: int,
) -> EnglishLettersState {
    let c = bytes[curr];
    let intag = if c == 62 {
        false
    } else if c == 60 {
        true
    } else {
        st.intag
    };
    if c < 0x80 && !is_ascii_letter(c) {
        if curr > st.prev && !intag {
            EnglishLettersState {
                filtered: st.filtered + bytes.subrange(st.prev, curr) + seq![0x20u8],
                intag,
                prev: curr + 1,
            }
        } else {
            EnglishLettersState { filtered: st.filtered, intag, prev: curr + 1 }
        }
    } else {
        EnglishLettersState { intag, ..st }
    }
}

/// The filter state after the first `n` bytes.
pub open spec fn english_letters_scan(bytes: Seq<u8>, n: nat) -> EnglishLettersState
    decreases n,
{
    if n == 0 {
        EnglishLettersState { filtered: Seq::<u8>::empty(), intag: false, prev: 0 }
    } else {
        english_letters_step(bytes, english_letters_scan(bytes, (n - 1) as nat), n - 1)
    }
}

/// The result of the English-letters filter: letter and high-byte runs
/// outside tag spans are kept, each non-letter run collapsing to one space;
/// a trailing run is kept only when the walk did not end inside a tag.
pub open spec fn spec_filter_with_english_letters(bytes: Seq<u8>) -> Seq<u8> {
    let st = english_letters_scan(bytes, bytes.len());
    if !st.intag {
        st.filtered + bytes.subrange(st.prev, bytes.len() as int)
    } else {
        st.filtered
    }
}

/// Keeps English letters and high bytes, collapsing every non-letter run
/// outside a `<`...`>` tag span to a single space and dropping tag spans.
pub fn filter_with_english_letters(byte_str: &[u8]) -> (filtered: Vec<u8>)
    ensures
        filtered@ == spec_filter_with_english_letters(byte_str@),
{
    let mut filtered: Vec<u8> = Vec::new();
    let mut intag: bool = false;
    let mut prev: usize = 0;
    let mut curr: usize = 0;
    while curr < byte_str.len()
        invariant
            curr <= byte_str@.len(),
            prev <= curr,
            english_letters_scan(byte_str@, curr as nat) == (EnglishLettersState {
                filtered: filtered@,
                intag: intag,
                prev: prev as int,
            }),
        decreases byte_str@.len() - curr,
    {
        let ghost st_before = english_letters_scan(byte_str@, curr as nat);
        let buf_char = byte_str[curr];
        if buf_char == 62 {
            intag = false;
        } else if buf_char == 60 {
            intag = true;
        }
        if (buf_char < 0x80) && ((buf_char < 65) || ((buf_char > 90) && (buf_char < 97))
            || (buf_char > 122)) {
            if (curr > prev) && (!intag) {
                let ghost emitted_before = filtered@;
                let mut p: usize = prev;
                while p < curr
                    invariant
                        prev <= p <= curr,
                        curr < byte_str@.len(),
                        filtered@ =~= emitted_before + byte_str@.subrange(prev as int, p as int),
                    decreases curr - p,
                {
                    filtered.push(byte_str[p]);
                    p = p + 1;
                }
                filtered.push(0x20);
                proof {
                    assert(filtered@ =~= emitted_before + byte_str@.subrange(
                        prev as int,
                        curr as int,
                    ) + seq![0x20u8]);
                }
            }
            prev = curr + 1;
        }
        curr = curr + 1;
        proof {
            assert(english_letters_scan(byte_str@, curr as nat) == english_letters_step(
                byte_str@,
                st_before,
                curr as int - 1,
            ));
        }
    }
    if !intag {
        let ghost emitted_before = filtered@;
        let mut p: usize = prev;
        while p < byte_str.len()
            invariant
                prev <= p <= byte_str@.len(),
                filtered@ =~= emitted_before + byte_str@.subrange(prev as int, p as int),
            decreases byte_str@.len() - p,
        {
            filtered.push(byte_str[p]);
            p = p + 1;
        }
    }
    proof {
        assert(filtered@ =~= spec_filter_with_english_letters(byte_str@));
    }
    filtered
}

} // verus!
