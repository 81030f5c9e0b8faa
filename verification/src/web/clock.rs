//! The time of verification.
//!
//! The system clock is read through std. Nothing is proved of what it
//! shows: the functions that read it say what holds whatever it shows.

use std::time::{Duration, SystemTime, UNIX_EPOCH};

use vstd::prelude::*;

verus! {

/// `std::time::SystemTime`, of which nothing is read: a value is only
/// carried from the clock to the measure of its distance from the epoch.
#[verifier::external_type_specification]
#[verifier::external_body]
pub struct ExSystemTime(SystemTime);

/// What the system clock shows. Calls `SystemTime::now`; nothing is claimed
/// of the result.
#[verifier::external_body]
fn system_time() -> SystemTime {
    SystemTime::now()
}

/// How far `time` is after the Unix epoch, if it is not before it. Calls
/// `SystemTime::duration_since` with `UNIX_EPOCH`, whose error, that the
/// time lies before the epoch, becomes `None`; nothing else is claimed.
#[verifier::external_body]
fn since_epoch(time: &SystemTime) -> Option<Duration> {
    time.duration_since(UNIX_EPOCH).ok()
}

/// The whole seconds of `distance`. Calls `Duration::as_secs`; nothing is
/// claimed of the result.
#[verifier::external_body]
fn whole_seconds(distance: &Duration) -> u64 {
    distance.as_secs()
}

/// The time now, in seconds since the Unix epoch. A clock that is set
/// before the epoch counts as showing the epoch itself: the time is then 0,
/// and nothing fails.
pub fn current_timestamp() -> u64 {
    let now = system_time();
    match since_epoch(&now) {
        Some(distance) => whole_seconds(&distance),
        None => 0,
    }
}

} // verus!
