use std::time::Duration;
use std::time::SystemTime;
use std::time::UNIX_EPOCH;

use turn_timing::clock::duration_millis_i64;
use turn_timing::clock::duration_millis_u64;
use turn_timing::clock::now_unix_timestamp_ms;
use turn_timing::clock::now_unix_timestamp_secs;
use turn_timing::clock::unix_timestamp_ms_at;

#[test]
fn milliseconds_are_rounded_down() {
    assert_eq!(duration_millis_i64(Duration::from_nanos(1_999_999)), 1);
    assert_eq!(duration_millis_u64(Duration::from_nanos(1_999_999)), 1);
    assert_eq!(duration_millis_i64(Duration::from_nanos(999_999)), 0);
    assert_eq!(duration_millis_u64(Duration::new(3, 4_000_000)), 3004);
}

#[test]
fn milliseconds_are_cut_off() {
    assert_eq!(duration_millis_i64(Duration::MAX), i64::MAX);
    assert_eq!(duration_millis_u64(Duration::MAX), u64::MAX);
    let largest_i64 = Duration::from_millis(i64::MAX as u64);
    assert_eq!(duration_millis_i64(largest_i64), i64::MAX);
    assert_eq!(duration_millis_i64(largest_i64 - Duration::from_millis(1)), i64::MAX - 1);
    assert_eq!(
        duration_millis_i64(largest_i64 + Duration::from_millis(1)),
        i64::MAX
    );
    let largest_u64 = Duration::from_millis(u64::MAX);
    assert_eq!(duration_millis_u64(largest_u64 - Duration::from_millis(1)), u64::MAX - 1);
    assert_eq!(
        duration_millis_u64(largest_u64 + Duration::from_millis(1)),
        u64::MAX
    );
}

#[test]
fn longest_span_has_the_stated_length() {
    assert_eq!(
        Duration::MAX.as_nanos(),
        turn_timing::clock::MAX_DURATION_NANOS
    );
}

#[test]
fn unix_timestamps_count_from_the_epoch() {
    assert_eq!(unix_timestamp_ms_at(UNIX_EPOCH), 0);
    assert_eq!(
        unix_timestamp_ms_at(UNIX_EPOCH + Duration::from_micros(1_234_567)),
        1234
    );
}

#[test]
fn clock_before_the_epoch_counts_as_the_epoch() {
    assert_eq!(unix_timestamp_ms_at(UNIX_EPOCH - Duration::from_secs(5)), 0);
}

#[test]
fn current_timestamps_follow_the_wall_clock() {
    let before = SystemTime::now()
        .duration_since(UNIX_EPOCH)
        .unwrap_or_default();
    let millis = now_unix_timestamp_ms();
    let secs = now_unix_timestamp_secs();
    let after = SystemTime::now()
        .duration_since(UNIX_EPOCH)
        .unwrap_or_default();
    assert!(before.as_millis() <= millis as u128 && millis as u128 <= after.as_millis());
    assert!(before.as_secs() <= secs as u64 && secs as u64 <= after.as_secs());
}
