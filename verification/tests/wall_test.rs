use rtsc::wall::NANOS_PER_SEC;
use rtsc::{nanos_since_epoch, unix_nano_std};
use std::time::{SystemTime, UNIX_EPOCH};

#[test]
fn nanos_per_sec_is_ten_to_the_ninth() {
    assert_eq!(NANOS_PER_SEC, 1_000_000_000);
}

#[test]
fn nanos_are_seconds_times_ten_to_the_ninth_plus_the_rest() {
    assert_eq!(nanos_since_epoch(false, 0, 0), 0);
    assert_eq!(nanos_since_epoch(false, 0, 1), 1);
    assert_eq!(nanos_since_epoch(false, 1, 0), 1_000_000_000);
    assert_eq!(nanos_since_epoch(false, 1, 5), 1_000_000_005);
    assert_eq!(nanos_since_epoch(false, 1_645_227_926, 76_647_424), 1_645_227_926_076_647_424);
}

#[test]
fn nanos_before_the_epoch_are_negative() {
    assert_eq!(nanos_since_epoch(true, 0, 0), 0);
    assert_eq!(nanos_since_epoch(true, 0, 1), -1);
    assert_eq!(nanos_since_epoch(true, 1, 5), -1_000_000_005);
}

#[test]
fn nanos_reach_the_ends_of_the_range() {
    assert_eq!(nanos_since_epoch(false, 9_223_372_036, 854_775_806), i64::MAX - 1);
    assert_eq!(nanos_since_epoch(false, 9_223_372_036, 854_775_807), i64::MAX);
    assert_eq!(nanos_since_epoch(true, 9_223_372_036, 854_775_807), i64::MIN + 1);
    assert_eq!(nanos_since_epoch(true, 9_223_372_036, 854_775_808), i64::MIN);
}

#[test]
fn nanos_out_of_range_give_the_nearest_end() {
    assert_eq!(nanos_since_epoch(false, 9_223_372_036, 854_775_808), i64::MAX);
    assert_eq!(nanos_since_epoch(false, 9_223_372_037, 0), i64::MAX);
    assert_eq!(nanos_since_epoch(false, u64::MAX, u32::MAX), i64::MAX);
    assert_eq!(nanos_since_epoch(true, 9_223_372_036, 854_775_809), i64::MIN);
    assert_eq!(nanos_since_epoch(true, u64::MAX, 999_999_999), i64::MIN);
}

#[test]
fn os_clock_agrees_with_the_system_time() {
    let before = SystemTime::now().duration_since(UNIX_EPOCH).unwrap();
    let ns = unix_nano_std();
    let after = SystemTime::now().duration_since(UNIX_EPOCH).unwrap();
    let low = before.as_secs() as i64 * 1_000_000_000 + before.subsec_nanos() as i64;
    let high = after.as_secs() as i64 * 1_000_000_000 + after.subsec_nanos() as i64;
    // The system clock may be stepped between the readings; a second of
    // slack covers the small corrections that happen in practice.
    assert!(ns >= low - 1_000_000_000);
    assert!(ns <= high + 1_000_000_000);
    // Later than 2020-01-01.
    assert!(ns > 1_577_836_800_000_000_000);
}

#[test]
fn os_clock_goes_on() {
    let first = unix_nano_std();
    let started = std::time::Instant::now();
    while started.elapsed().as_millis() < 20 {
        std::hint::spin_loop();
    }
    let second = unix_nano_std();
    let elapsed = second - first;
    assert!(elapsed >= 10_000_000);
    assert!(elapsed <= 5_000_000_000);
}
