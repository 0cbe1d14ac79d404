use chardet::HebrewProber;
use chardet::ProbingState;
use chardet::fallback_sb_model;

fn hebrew_prober() -> HebrewProber {
    // The decision logic under test is independent of the statistical
    // tables, so an inert single-byte model serves both sub-detectors.
    HebrewProber::new(fallback_sb_model(false, "any".to_string(), "Hebrew".to_string()))
}

#[test]
fn final_letter_checks() {
    let p = hebrew_prober();
    assert!(p.is_final(0xEA));
    assert!(p.is_final(0xF5));
    assert!(!p.is_final(0xEB));
    assert!(p.is_non_final(0xEB));
    assert!(!p.is_non_final(0xF6));
}

#[test]
fn undecided_prober_defaults_to_logical() {
    let p = hebrew_prober();
    assert_eq!(p.get_charset(), "windows-1255");
    assert_eq!(p.get_language(), "Hebrew");
    assert_eq!(p.get_state(), ProbingState::Detecting);
}

#[test]
fn decisive_logical_asymmetry_names_logical_order() {
    let mut p = hebrew_prober();
    // Five words ending in final kaf: final-form consonants before spaces
    // are evidence of logically ordered text.
    for _ in 0..5 {
        p.feed(&[0xE0, 0xEA, 0x20]);
    }
    assert_eq!(p.m_final_char_logical_score, 5);
    assert_eq!(p.m_final_char_visual_score, 0);
    assert_eq!(p.get_charset(), "windows-1255");
}

#[test]
fn decisive_visual_asymmetry_names_visual_order() {
    let mut p = hebrew_prober();
    // Five words ending in normal kaf instead.
    for _ in 0..5 {
        p.feed(&[0xE0, 0xEB, 0x20]);
    }
    assert_eq!(p.m_final_char_visual_score, 5);
    assert_eq!(p.get_charset(), "ISO-8859-8");
}

#[test]
fn word_initial_final_form_scores_visual() {
    let mut p = hebrew_prober();
    // A final-form consonant right after a space, followed by more text,
    // points at visually ordered words.
    for _ in 0..5 {
        p.feed(&[0x20, 0xEA, 0xE0]);
    }
    assert_eq!(p.m_final_char_visual_score, 5);
    assert_eq!(p.get_charset(), "ISO-8859-8");
}

#[test]
fn small_asymmetry_falls_back_to_the_sign() {
    let mut p = hebrew_prober();
    for _ in 0..4 {
        p.feed(&[0xE0, 0xEA, 0x20]);
    }
    // Asymmetry of 4 is under the distance threshold and both sub-detector
    // confidences are at the floor, so the sign decides: logical.
    assert_eq!(p.get_charset(), "windows-1255");
    let mut q = hebrew_prober();
    for _ in 0..4 {
        q.feed(&[0xE0, 0xEB, 0x20]);
    }
    assert_eq!(q.get_charset(), "ISO-8859-8");
}

#[test]
fn hebrew_reset_restores_the_fresh_state() {
    let mut p = hebrew_prober();
    for _ in 0..5 {
        p.feed(&[0xE0, 0xEB, 0x20]);
    }
    p.reset();
    assert_eq!(p.m_final_char_logical_score, 0);
    assert_eq!(p.m_final_char_visual_score, 0);
    assert_eq!(p.get_charset(), "windows-1255");
    for _ in 0..5 {
        p.feed(&[0xE0, 0xEA, 0x20]);
    }
    assert_eq!(p.get_charset(), "windows-1255");
}
