//! The system clock, as far as user records need it.

use std::time::{Duration, SystemTime};
use vstd::prelude::*;

verus! {

#[verifier::external_type_specification]
#[verifier::external_body]
pub struct ExSystemTime(SystemTime);

/// Relies on `SystemTime`'s `Clone`, which the derived `Clone` of a user
/// record calls; nothing is stated of the copy.
pub assume_specification[ <SystemTime as Clone>::clone ](t: &SystemTime) -> SystemTime;

/// Relies on `Duration::as_nanos`: the whole nanoseconds of a duration.
pub assume_specification[ Duration::as_nanos ](d: &Duration) -> u128;

/// Relies on `SystemTime::now`: the current wall-clock time. Nothing is
/// known of the value.
#[verifier::external_body]
pub(crate) fn system_now() -> SystemTime {
    SystemTime::now()
}

/// Relies on `SystemTime::duration_since` with `UNIX_EPOCH`: the time since
/// the epoch, or `None` for a time before it.
#[verifier::external_body]
pub(crate) fn since_epoch(t: &SystemTime) -> Option<Duration> {
    t.duration_since(SystemTime::UNIX_EPOCH).ok()
}

/// Nanoseconds from the epoch to now. A clock set before the epoch counts
/// as standing at the epoch itself.
pub fn unix_nanos_now() -> u128 {
    let now = system_now();
    match since_epoch(&now) {
        Some(d) => d.as_nanos(),
        None => 0,
    }
}

} // verus!
