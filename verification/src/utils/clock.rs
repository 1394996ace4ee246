//! Reading the system clock.

use vstd::prelude::*;

verus! {

/// `std::time::SystemTime`, carried through opaquely.
#[verifier::external_type_specification]
#[verifier::external_body]
pub struct ExSystemTime(std::time::SystemTime);

/// `std::time::SystemTimeError`, carried through opaquely.
#[verifier::external_type_specification]
#[verifier::external_body]
pub struct ExSystemTimeError(std::time::SystemTimeError);

/// `SystemTime::now` of std: the current reading of the system clock.
/// Nothing is promised of it.
pub assume_specification[ std::time::SystemTime::now ]() -> std::time::SystemTime;

/// `SystemTime::duration_since` of std: the time elapsed from `earlier` to
/// `t`, or an error carrying the time from `t` to `earlier` when `t` is the
/// earlier one. Nothing is promised of the values.
pub assume_specification[ std::time::SystemTime::duration_since ](
    t: &std::time::SystemTime,
    earlier: std::time::SystemTime,
) -> Result<std::time::Duration, std::time::SystemTimeError>;

/// `SystemTimeError::duration` of std: how far the later time lay before the
/// earlier one. Nothing is promised of the value.
pub assume_specification[ std::time::SystemTimeError::duration ](
    e: &std::time::SystemTimeError,
) -> std::time::Duration;

/// `Duration::as_millis` of std: the whole milliseconds of a duration.
/// Nothing is promised of the value: the duration is opaque here.
pub assume_specification[ std::time::Duration::as_millis ](d: &std::time::Duration) -> u128;

/// Hands out `std::time::UNIX_EPOCH`, the time 1970-01-01T00:00:00Z.
#[verifier::external_body]
fn unix_epoch() -> std::time::SystemTime {
    std::time::UNIX_EPOCH
}

/// A millisecond count cut to the largest `i64`.
fn saturated_millis(ms: u128) -> (r: i64)
    ensures
        r >= 0,
        ms <= i64::MAX ==> r == ms,
        ms > i64::MAX ==> r == i64::MAX,
{
    if ms > 0x7fff_ffff_ffff_ffffu128 {
        i64::MAX
    } else {
        ms as i64
    }
}

/// Milliseconds since 1970-01-01T00:00:00Z by the system clock, negative for
/// a clock before 1970, cut to the range of `i64`. Nothing is known of the
/// value: it depends on the machine's clock.
pub(crate) fn clock_millis() -> i64 {
    let now = std::time::SystemTime::now();
    match now.duration_since(unix_epoch()) {
        Ok(elapsed) => saturated_millis(elapsed.as_millis()),
        Err(err) => {
            let before = saturated_millis(err.duration().as_millis());
            0 - before
        },
    }
}

/// Milliseconds since 1970-01-01T00:00:00Z by the system clock; 0 when the
/// clock reads a time before 1970. Nothing is known of the value beyond
/// that: it depends on the machine's clock.
pub(crate) fn unix_millis() -> u64 {
    let ms = clock_millis();
    if ms < 0 {
        0
    } else {
        ms as u64
    }
}

} // verus!
