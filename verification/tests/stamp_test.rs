use openmix::stamp::{now_stamp, stamp_from_elapsed, stamp_from_secs};
use openmix::text::decimal_string;

#[test]
fn stamps_are_decimal_seconds() {
    assert_eq!(stamp_from_secs(0), "0");
    assert_eq!(stamp_from_secs(7), "7");
    assert_eq!(stamp_from_secs(10), "10");
    assert_eq!(stamp_from_secs(1_723_593_600), "1723593600");
    assert_eq!(stamp_from_secs(u64::MAX), "18446744073709551615");
}

#[test]
fn now_stamp_reads_the_clock_in_seconds() {
    let s = now_stamp();
    let secs: u64 = s.parse().unwrap();
    let expected = std::time::SystemTime::now()
        .duration_since(std::time::UNIX_EPOCH)
        .unwrap()
        .as_secs();
    assert!(secs <= expected && expected - secs <= 5, "{secs} vs {expected}");
}

#[test]
fn decimal_has_no_leading_zeros() {
    for n in [0u64, 9, 100, 1_000_001, 4_294_967_296] {
        assert_eq!(decimal_string(n), n.to_string());
    }
}

#[test]
fn clock_before_epoch_stamps_zero() {
    assert_eq!(stamp_from_elapsed(None), "0");
    assert_eq!(stamp_from_elapsed(Some(1_723_593_600)), "1723593600");
}
