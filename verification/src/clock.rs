//! The system clock.
use vstd::prelude::*;
use core::time::Duration;
use std::time::SystemTime;

verus! {

#[verifier::external_type_specification]
#[verifier::external_body]
pub struct ExSystemTime(SystemTime);

/// `SystemTime::now`: the current reading of the system clock. It depends
/// on the clock, so nothing is promised of it.
#[verifier::external_body]
fn system_now() -> (t: SystemTime) {
    SystemTime::now()
}

/// `SystemTime::duration_since` with `UNIX_EPOCH` as the earlier time: the
/// time elapsed from the Unix epoch to `t`, or `None` when `t` is earlier
/// than the epoch (the error that the call returns then is dropped). `t` is
/// opaque here, so nothing is stated of the result.
#[verifier::external_body]
fn elapsed_since_unix_epoch(t: &SystemTime) -> (r: Option<Duration>) {
    t.duration_since(std::time::UNIX_EPOCH).ok()
}

/// The time elapsed since the Unix epoch by the system clock, or `None` when
/// the clock reads earlier than the epoch.
pub(crate) fn since_unix_epoch() -> (r: Option<Duration>) {
    let now = system_now();
    elapsed_since_unix_epoch(&now)
}

/// The whole seconds elapsed since the Unix epoch by the system clock, or
/// `None` when the clock reads earlier than the epoch.
pub(crate) fn unix_seconds_now() -> (r: Option<u64>) {
    match since_unix_epoch() {
        Some(elapsed) => Some(elapsed.as_secs()),
        None => None,
    }
}

/// `Duration::subsec_nanos`: the fractional part of a duration in nanoseconds,
/// which its documentation says is always below one billion.
pub assume_specification[ Duration::subsec_nanos ](d: &Duration) -> (r: u32)
    ensures
        r < 1_000_000_000,
;

/// `Duration::as_secs`: the whole seconds of a duration. The duration is
/// opaque here, so nothing is stated of the result.
pub assume_specification[ Duration::as_secs ](d: &Duration) -> u64;

} // verus!
