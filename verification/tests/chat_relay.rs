use server_maintainer::chat_relay::{ChatRelayBatcher, ErrorThrottle};

#[test]
fn two_early_lines_wait_for_the_third() {
    let mut batcher = ChatRelayBatcher::new(10_000, 2_000);
    assert_eq!(batcher.submit(10_500, "Kistepsi".to_string(), "egy".to_string()), None);
    assert_eq!(batcher.submit(12_000, "Screeper__".to_string(), "ketto".to_string()), None);
    assert_eq!(batcher.pending_len(), 2);
    assert_eq!(
        batcher.submit(12_001, "Kistepsi".to_string(), "harom".to_string()),
        Some("\n<**Kistepsi**> egy\n<**Screeper__**> ketto\n<**Kistepsi**> harom".to_string())
    );
    assert_eq!(batcher.pending_len(), 0);
}

#[test]
fn a_late_line_goes_out_alone() {
    let mut batcher = ChatRelayBatcher::new(0, 2_000);
    assert_eq!(
        batcher.submit(2_001, "a".to_string(), "b".to_string()),
        Some("\n<**a**> b".to_string())
    );
    assert_eq!(batcher.submit(4_001, "c".to_string(), "d".to_string()), None);
    assert_eq!(
        batcher.submit(4_002, "e".to_string(), "f".to_string()),
        Some("\n<**c**> d\n<**e**> f".to_string())
    );
}

#[test]
fn batcher_at_the_ends_of_the_clock() {
    let mut batcher = ChatRelayBatcher::new(i64::MIN, i64::MAX);
    assert_eq!(batcher.submit(-2, "a".to_string(), "b".to_string()), None);
    assert!(batcher.submit(i64::MAX, "a".to_string(), "b".to_string()).is_some());
}

#[test]
fn throttle_lets_one_report_pass_per_interval() {
    let mut throttle = ErrorThrottle::new(1_000, 15_000);
    assert!(!throttle.admit_report(15_999));
    assert!(throttle.admit_report(16_000));
    assert!(!throttle.admit_report(16_001));
    assert!(!throttle.admit_report(30_999));
    assert!(throttle.admit_report(31_000));
}
