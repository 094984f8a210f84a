//! The default query window: from 24 hours ago until now, read once
//! from the system clock at startup.

use vstd::prelude::*;

verus! {

/// Seconds in an hour.
pub const ONE_HOUR_IN_SECS: u64 = 3600;

#[verifier::external_type_specification]
#[verifier::external_body]
pub struct ExSystemTime(std::time::SystemTime);

#[verifier::external_type_specification]
#[verifier::external_body]
pub struct ExSystemTimeError(std::time::SystemTimeError);

/// Relies on std::time::UNIX_EPOCH: the epoch reference point.
#[verifier::external_body]
fn unix_epoch() -> std::time::SystemTime {
    std::time::UNIX_EPOCH
}

/// Relies on std::time::SystemTime::elapsed: the wall-clock time that
/// passed since `t`, or an error if the clock now reads earlier than
/// `t`. Nothing is promised of the result: it depends on the clock.
pub assume_specification[ std::time::SystemTime::elapsed ](t: &std::time::SystemTime) -> Result<
    core::time::Duration,
    std::time::SystemTimeError,
>;

/// Relies on core::time::Duration::as_secs: the whole seconds of the
/// duration. Nothing is promised of the result.
pub assume_specification[ core::time::Duration::as_secs ](d: &core::time::Duration) -> u64;

/// Seconds since the Unix epoch, read from the system clock; zero in
/// the degenerate case of a clock that reads earlier than the epoch.
/// Nothing can be stated of the result: it depends on the clock.
pub fn now() -> u64 {
    match unix_epoch().elapsed() {
        Ok(d) => d.as_secs(),
        Err(_) => 0,
    }
}

/// The default start of the query window: 24 hours before the given
/// time, clamped at the epoch.
pub fn default_start(now_secs: u64) -> (r: u64)
    ensures
        r == if now_secs >= ONE_HOUR_IN_SECS * 24 {
            now_secs - ONE_HOUR_IN_SECS * 24
        } else {
            0
        },
{
    if now_secs >= ONE_HOUR_IN_SECS * 24 {
        now_secs - ONE_HOUR_IN_SECS * 24
    } else {
        0
    }
}

/// The default start flag value: 24 hours before the clock's reading,
/// clamped at the epoch. Like `now`, the result depends on the clock.
pub fn yesterday() -> u64 {
    default_start(now())
}

} // verus!
