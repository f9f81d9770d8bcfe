//! The operating system's wall clock, in nanoseconds since the Unix epoch.

use std::time::{Duration, SystemTime, SystemTimeError};
use vstd::prelude::*;

verus! {

/// Nanoseconds in a second.
pub const NANOS_PER_SEC: i64 = 1_000_000_000;

/// A point in time as `std::time::SystemTime` holds it. Nothing is known of
/// what is inside.
#[verifier::external_type_specification]
#[verifier::external_body]
pub struct ExSystemTime(SystemTime);

/// The error of `std::time::SystemTime::duration_since`. Nothing is known of
/// what is inside.
#[verifier::external_type_specification]
#[verifier::external_body]
pub struct ExSystemTimeError(SystemTimeError);

/// `std::time::SystemTime::now` reads the system clock. Nothing is claimed
/// of the time it returns.
pub assume_specification[ SystemTime::now ]() -> (now: SystemTime)
;

/// `std::time::Duration::as_secs` gives the whole seconds of a duration.
/// Nothing is claimed of their number.
pub assume_specification[ Duration::as_secs ](duration: &Duration) -> (secs: u64)
;

/// `std::time::Duration::subsec_nanos` gives the part of a duration below
/// one second, in nanoseconds. Nothing is claimed of their number.
pub assume_specification[ Duration::subsec_nanos ](duration: &Duration) -> (nanos: u32)
;

/// `std::time::SystemTimeError::duration` gives the distance between the two
/// points in time that were compared in the wrong order. Nothing is claimed
/// of it.
pub assume_specification[ SystemTimeError::duration ](error: &SystemTimeError) -> (distance:
    Duration)
;

/// Calls `std::time::SystemTime::duration_since` with the Unix epoch: the
/// time from the epoch to `time`, or an error that holds the time from
/// `time` to the epoch where `time` lies before it. Nothing is claimed of
/// either.
#[verifier::external_body]
fn since_epoch(time: &SystemTime) -> (elapsed: Result<Duration, SystemTimeError>) {
    time.duration_since(std::time::UNIX_EPOCH)
}

/// The signed distance in nanoseconds from the epoch to the point in time
/// that lies `secs` seconds and `subsec_nanos` nanoseconds after it, or
/// before it.
pub open spec fn epoch_nanos(before_epoch: bool, secs: u64, subsec_nanos: u32) -> int {
    let distance = secs * NANOS_PER_SEC + subsec_nanos;
    if before_epoch {
        -distance
    } else {
        distance
    }
}

/// The `i64` nearest to `ns`.
pub open spec fn saturate(ns: int) -> i64 {
    if ns > i64::MAX {
        i64::MAX
    } else if ns < i64::MIN {
        i64::MIN
    } else {
        ns as i64
    }
}

/// Nanoseconds since the epoch of a point in time given by its distance
/// from the epoch: `secs * 10^9 + subsec_nanos`, negative before the epoch.
/// A point too far away for an `i64` gives the nearest `i64`.
pub fn nanos_since_epoch(before_epoch: bool, secs: u64, subsec_nanos: u32) -> (ns: i64)
    ensures
        ns == saturate(epoch_nanos(before_epoch, secs, subsec_nanos)),
{
    assert(secs * NANOS_PER_SEC == secs * 1_000_000_000);
    let distance: i128 = secs as i128 * 1_000_000_000 + subsec_nanos as i128;
    let signed: i128 = if before_epoch {
        -distance
    } else {
        distance
    };
    if signed > i64::MAX as i128 {
        i64::MAX
    } else if signed < i64::MIN as i128 {
        i64::MIN
    } else {
        signed as i64
    }
}

/// The wall-clock time of the operating system in nanoseconds since
/// 1970-01-01T00:00:00Z.
pub fn unix_nano_std() -> i64 {
    let now = SystemTime::now();
    match since_epoch(&now) {
        Ok(elapsed) => nanos_since_epoch(false, elapsed.as_secs(), elapsed.subsec_nanos()),
        Err(error) => {
            let distance = error.duration();
            nanos_since_epoch(true, distance.as_secs(), distance.subsec_nanos())
        },
    }
}

} // verus!
