use chardet::CharDistributionAnalysis;
use chardet::OrderScheme;
use chardet::order_of;

#[test]
fn order_formulas_match_their_byte_ranges() {
    assert_eq!(order_of(OrderScheme::EucTw, 0xC4, 0xA1), Some(0));
    assert_eq!(order_of(OrderScheme::EucTw, 0xC3, 0xA1), None);
    assert_eq!(order_of(OrderScheme::EucKr, 0xB0, 0xA1), Some(0));
    assert_eq!(order_of(OrderScheme::EucKr, 0xB1, 0xA2), Some(95));
    assert_eq!(order_of(OrderScheme::Gb2312, 0xB0, 0xA0), None);
    assert_eq!(order_of(OrderScheme::Gb2312, 0xB0, 0xA1), Some(0));
    assert_eq!(order_of(OrderScheme::Big5, 0xA4, 0x40), Some(0));
    assert_eq!(order_of(OrderScheme::Big5, 0xA4, 0xA1), Some(63));
    assert_eq!(order_of(OrderScheme::Big5, 0xA3, 0x40), None);
    assert_eq!(order_of(OrderScheme::Sjis, 0x81, 0x40), Some(0));
    assert_eq!(order_of(OrderScheme::Sjis, 0xE0, 0x40), Some(188 * 31));
    assert_eq!(order_of(OrderScheme::Sjis, 0x81, 0x80), None);
    assert_eq!(order_of(OrderScheme::Sjis, 0xA0, 0x40), None);
    assert_eq!(order_of(OrderScheme::EucJp, 0xA1, 0xA1), Some(0));
    assert_eq!(order_of(OrderScheme::EucJp, 0x9F, 0xA1), None);
}

#[test]
fn fresh_analyzer_reports_the_floor() {
    let a = CharDistributionAnalysis::new(OrderScheme::EucKr, vec![0u16; 100], 3, 4);
    assert_eq!(a.get_confidence(), 10000);
}

#[test]
fn all_frequent_sequences_report_the_ceiling() {
    let mut a = CharDistributionAnalysis::new(OrderScheme::EucKr, vec![0u16; 100], 3, 4);
    for _ in 0..4 {
        a.feed(&[0xB0, 0xA1], 2);
    }
    // freq == total and above the minimum data threshold.
    assert_eq!(a.get_confidence(), 990000);
}

#[test]
fn mixed_sequences_follow_the_ratio_formula() {
    let mut a = CharDistributionAnalysis::new(OrderScheme::EucKr, vec![0u16; 100], 3, 4);
    for _ in 0..4 {
        // Order 0: inside the table, frequent.
        a.feed(&[0xB0, 0xA1], 2);
    }
    for _ in 0..60 {
        // Order 188: outside the 100-entry table, total only.
        a.feed(&[0xB2, 0xA1], 2);
    }
    // freq / ((total - freq) * ratio) = 4 / (60 * 3/4) = 4 * 4 / 180,
    // in parts per million with floor division.
    assert_eq!(a.get_confidence(), 4 * 4 * 1000000 / 180);
}

#[test]
fn single_byte_characters_carry_no_signal() {
    let mut a = CharDistributionAnalysis::new(OrderScheme::EucKr, vec![0u16; 100], 3, 4);
    a.feed(&[0xB0, 0xA1], 1);
    a.feed(&[0xB0, 0xA1], 3);
    assert_eq!(a.m_total_chars, 0);
}

#[test]
fn confidence_is_monotonic_in_frequent_count() {
    // Fixed total of 64 sequences; growing frequent share never lowers the
    // confidence, and it stays within the floor and the ceiling.
    let mut last = 0u32;
    for freq in 0..=64u32 {
        let mut a = CharDistributionAnalysis::new(OrderScheme::EucKr, vec![0u16; 100], 3, 4);
        for _ in 0..freq {
            a.feed(&[0xB0, 0xA1], 2);
        }
        for _ in 0..(64 - freq) {
            a.feed(&[0xB2, 0xA1], 2);
        }
        let c = a.get_confidence();
        assert!(c >= last);
        assert!((10000..=990000).contains(&c));
        last = c;
    }
}

#[test]
fn enough_data_threshold_is_strict() {
    let mut a = CharDistributionAnalysis::new(OrderScheme::EucKr, vec![0u16; 2000], 1, 1);
    for _ in 0..1024 {
        a.feed(&[0xB0, 0xA1], 2);
    }
    assert!(!a.got_enough_data());
    a.feed(&[0xB0, 0xA1], 2);
    assert!(a.got_enough_data());
}

#[test]
fn reset_clears_the_counters() {
    let mut a = CharDistributionAnalysis::new(OrderScheme::EucKr, vec![0u16; 100], 3, 4);
    for _ in 0..8 {
        a.feed(&[0xB0, 0xA1], 2);
    }
    a.reset();
    assert_eq!(a.m_total_chars, 0);
    assert_eq!(a.get_confidence(), 10000);
}
