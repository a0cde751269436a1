use vstd::prelude::*;
use std::time::{Duration, SystemTime, SystemTimeError};

verus! {

#[verifier::external_type_specification]
#[verifier::external_body]
pub struct ExSystemTime(std::time::SystemTime);

#[verifier::external_type_specification]
#[verifier::external_body]
pub struct ExSystemTimeError(std::time::SystemTimeError);

/// `SystemTime::now` reads the system clock; nothing is promised about the
/// time it returns.
pub assume_specification[ std::time::SystemTime::now ]() -> SystemTime;

/// `SystemTime::duration_since` gives the time elapsed since `earlier`, or an
/// error when `earlier` is later; which of the two comes back is not stated.
pub assume_specification[ std::time::SystemTime::duration_since ](
    this: &SystemTime,
    earlier: SystemTime,
) -> Result<Duration, SystemTimeError>;

/// `std::time::UNIX_EPOCH`, the time of the Unix epoch; its value is opaque
/// here, so nothing is stated of it.
#[verifier::external_body]
fn unix_epoch() -> SystemTime {
    std::time::UNIX_EPOCH
}

/// `Duration::as_nanos` gives the whole nanoseconds of a duration; the value
/// is not stated, as a `Duration` is opaque here.
pub assume_specification[ core::time::Duration::as_nanos ](d: &Duration) -> u128;

/// The capture timestamp for a time of `nanos` nanoseconds since the Unix
/// epoch: its low 64 bits.
pub fn capture_timestamp_from_nanos(nanos: u128) -> (r: u64)
    ensures
        r as int == nanos as int % 18446744073709551616,
{
    (nanos % 18446744073709551616u128) as u64
}

/// The capture timestamp for the time elapsed since the Unix epoch, in
/// nanoseconds (`None` when the clock reads earlier than the epoch): the low
/// 64 bits of the nanoseconds, or 0.
pub fn capture_timestamp_from_elapsed(elapsed: Option<u128>) -> (r: u64)
    ensures
        r as int == match elapsed {
            Some(n) => n as int % 18446744073709551616,
            None => 0,
        },
{
    match elapsed {
        Some(n) => capture_timestamp_from_nanos(n),
        None => 0,
    }
}

/// The current time as a capture timestamp: the low 64 bits of the
/// nanoseconds since the Unix epoch, or 0 when the clock reads earlier than
/// the epoch.
pub fn native_capture_timestamp() -> u64 {
    let now = SystemTime::now();
    let elapsed = match now.duration_since(unix_epoch()) {
        Ok(elapsed) => Some(elapsed.as_nanos()),
        Err(_) => None,
    };
    capture_timestamp_from_elapsed(elapsed)
}

} // verus!
