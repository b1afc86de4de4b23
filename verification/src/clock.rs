//! Points in time, spans of time, and the units they are reported in.
//!
//! The library measures with the clocks and spans of `std::time`, whose values are opaque.
//! Contracts speak of them in whole nanoseconds: [`instant_nanos`] and [`system_time_nanos`]
//! place a reading on its clock's line, [`duration_nanos`] is the length of a span.
use std::time::Duration;
use std::time::Instant;
use std::time::SystemTime;
use vstd::prelude::*;

verus! {

/// `std::time::Instant`, a reading of the monotonic clock.
#[verifier::external_type_specification]
#[verifier::external_body]
pub struct ExInstant(std::time::Instant);

/// `std::time::SystemTime`, a reading of the wall clock.
#[verifier::external_type_specification]
#[verifier::external_body]
pub struct ExSystemTime(std::time::SystemTime);

/// `std::time::SystemTimeError`, the answer to asking for the span up to an earlier time.
#[verifier::external_type_specification]
#[verifier::external_body]
pub struct ExSystemTimeError(std::time::SystemTimeError);

/// Nanoseconds in the longest span, `Duration::MAX`: `u64::MAX` seconds and 999 999 999
/// nanoseconds.
pub const MAX_DURATION_NANOS: u128 = 18_446_744_073_709_551_615_999_999_999;

/// Nanoseconds in a millisecond.
pub const NANOS_PER_MILLI: u128 = 1_000_000;

/// The length of a span in nanoseconds, as `Duration::as_nanos` counts them.
pub uninterp spec fn duration_nanos(duration: Duration) -> nat;

/// Where a reading of the monotonic clock stands on that clock's line, in nanoseconds from an
/// origin that is the same for all readings.
pub uninterp spec fn instant_nanos(instant: Instant) -> int;

/// Where a reading of the wall clock stands, in nanoseconds from the Unix epoch; negative before
/// the epoch.
pub uninterp spec fn system_time_nanos(time: SystemTime) -> int;

/// `now` is what a reading of the monotonic clock, `Instant::now`, gave.
pub open spec fn is_instant_reading(now: Instant) -> bool {
    call_ensures(Instant::now, (), now)
}

/// `now` is what a reading of the wall clock, `SystemTime::now`, gave.
pub open spec fn is_system_time_reading(now: SystemTime) -> bool {
    call_ensures(SystemTime::now, (), now)
}

/// The time from `earlier` to `later`, or nothing where `earlier` is the later of the two.
pub open spec fn elapsed_nanos(later: int, earlier: int) -> nat {
    if earlier <= later {
        (later - earlier) as nat
    } else {
        0
    }
}

/// The sum of two spans, cut off at the longest span there is.
pub open spec fn saturating_nanos(a: nat, b: nat) -> nat {
    if a + b <= MAX_DURATION_NANOS {
        a + b
    } else {
        MAX_DURATION_NANOS as nat
    }
}

/// Whole milliseconds in a span.
pub open spec fn whole_millis(nanos: nat) -> nat {
    nanos / (NANOS_PER_MILLI as nat)
}

/// Whole milliseconds in a span, cut off at the largest `u64`.
pub open spec fn millis_u64(nanos: nat) -> nat {
    if whole_millis(nanos) <= u64::MAX {
        whole_millis(nanos)
    } else {
        u64::MAX as nat
    }
}

/// Whole milliseconds in a span, cut off at the largest `i64`.
pub open spec fn millis_i64(nanos: nat) -> nat {
    if whole_millis(nanos) <= i64::MAX {
        whole_millis(nanos)
    } else {
        i64::MAX as nat
    }
}

/// The Unix timestamp in milliseconds of a wall clock reading. Readings before the epoch count as
/// the epoch.
pub open spec fn unix_millis(system_time: int) -> nat {
    millis_i64(elapsed_nanos(system_time, 0))
}

/// Whole seconds in a number of milliseconds, rounded toward zero.
pub open spec fn whole_seconds(millis: int) -> int {
    if millis >= 0 {
        millis / 1000
    } else {
        -((-millis) / 1000)
    }
}

/// The length of a span, if there is one.
pub open spec fn optional_nanos(duration: Option<Duration>) -> Option<nat> {
    match duration {
        Some(duration) => Some(duration_nanos(duration)),
        None => None,
    }
}

/// `Instant::now` reads the monotonic clock. The reading depends on when the call is made, so
/// nothing is claimed of it.
pub assume_specification[ std::time::Instant::now ]() -> (now: std::time::Instant)
;

/// `Instant::saturating_duration_since` is the time elapsed from `earlier` to `later`, or the zero
/// span where `earlier` is the later of the two.
pub assume_specification[ std::time::Instant::saturating_duration_since ](
    later: &std::time::Instant,
    earlier: std::time::Instant,
) -> (span: std::time::Duration)
    ensures
        duration_nanos(span) == elapsed_nanos(instant_nanos(*later), instant_nanos(earlier)),
;

/// `Instant::duration_since` is the time elapsed from `earlier` to `later`, or the zero span where
/// `earlier` is the later of the two.
pub assume_specification[ std::time::Instant::duration_since ](
    later: &std::time::Instant,
    earlier: std::time::Instant,
) -> (span: std::time::Duration)
    ensures
        duration_nanos(span) == elapsed_nanos(instant_nanos(*later), instant_nanos(earlier)),
;

/// `Duration::saturating_add` adds two spans, and gives `Duration::MAX` where the sum exceeds it.
pub assume_specification[ std::time::Duration::saturating_add ](
    a: std::time::Duration,
    b: std::time::Duration,
) -> (sum: std::time::Duration)
    ensures
        duration_nanos(sum) == saturating_nanos(duration_nanos(a), duration_nanos(b)),
;

/// `Duration::as_millis` counts the whole milliseconds in a span.
pub assume_specification[ std::time::Duration::as_millis ](
    duration: &std::time::Duration,
) -> (millis: u128)
    ensures
        millis == whole_millis(duration_nanos(*duration)),
;

/// `SystemTime::now` reads the wall clock. The reading depends on when the call is made, so
/// nothing is claimed of it.
pub assume_specification[ std::time::SystemTime::now ]() -> (now: std::time::SystemTime)
;

/// `SystemTime::duration_since` is the time elapsed from `earlier` to `later`, or an error where
/// `earlier` is the later of the two.
pub assume_specification[ std::time::SystemTime::duration_since ](
    later: &std::time::SystemTime,
    earlier: std::time::SystemTime,
) -> (span: Result<std::time::Duration, std::time::SystemTimeError>)
    ensures
        span is Ok <==> system_time_nanos(earlier) <= system_time_nanos(*later),
        span matches Ok(duration) ==> duration_nanos(duration) == elapsed_nanos(
            system_time_nanos(*later),
            system_time_nanos(earlier),
        ),
;

/// `Duration::ZERO`, the span of zero time.
#[verifier::external_body]
pub(crate) fn zero_duration() -> (zero: Duration)
    ensures
        duration_nanos(zero) == 0,
{
    Duration::ZERO
}

/// `SystemTime::UNIX_EPOCH`, the point that wall clock positions are counted from.
#[verifier::external_body]
pub(crate) fn unix_epoch() -> (epoch: SystemTime)
    ensures
        system_time_nanos(epoch) == 0,
{
    SystemTime::UNIX_EPOCH
}

/// The whole milliseconds of a span, or `i64::MAX` where they do not fit.
pub fn duration_millis_i64(duration: Duration) -> (millis: i64)
    ensures
        millis == millis_i64(duration_nanos(duration)),
{
    match i64::try_from(duration.as_millis()) {
        Ok(millis) => millis,
        Err(_) => i64::MAX,
    }
}

/// The whole milliseconds of a span, or `u64::MAX` where they do not fit.
pub fn duration_millis_u64(duration: Duration) -> (millis: u64)
    ensures
        millis == millis_u64(duration_nanos(duration)),
{
    match u64::try_from(duration.as_millis()) {
        Ok(millis) => millis,
        Err(_) => u64::MAX,
    }
}

/// The Unix timestamp in milliseconds at a given reading of the wall clock. A clock set before
/// the epoch counts as standing at it.
pub fn unix_timestamp_ms_at(now: SystemTime) -> (millis: i64)
    ensures
        millis == unix_millis(system_time_nanos(now)),
{
    let since_epoch = match now.duration_since(unix_epoch()) {
        Ok(since_epoch) => since_epoch,
        Err(_) => zero_duration(),
    };
    duration_millis_i64(since_epoch)
}

/// The current Unix timestamp in milliseconds.
pub fn now_unix_timestamp_ms() -> (millis: i64)
    ensures
        0 <= millis,
        exists|now: SystemTime|
            is_system_time_reading(now) && millis == unix_millis(#[trigger] system_time_nanos(now)),
{
    let now = SystemTime::now();
    unix_timestamp_ms_at(now)
}

/// The current Unix timestamp in whole seconds.
pub fn now_unix_timestamp_secs() -> (secs: i64)
    ensures
        0 <= secs,
        exists|now: SystemTime|
            is_system_time_reading(now) && secs == whole_seconds(
                unix_millis(#[trigger] system_time_nanos(now)) as int,
            ),
{
    now_unix_timestamp_ms() / 1000
}

} // verus!
