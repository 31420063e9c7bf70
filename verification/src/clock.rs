use std::time::{SystemTime, SystemTimeError};
use core::time::Duration;
use vstd::prelude::*;

verus! {

#[verifier::external_type_specification]
#[verifier::external_body]
pub struct ExSystemTime(SystemTime);

#[verifier::external_type_specification]
#[verifier::external_body]
pub struct ExSystemTimeError(SystemTimeError);

/// Reads the system clock (`std::time::SystemTime::now`). Nothing is stated of
/// the value: it is whatever the machine's clock shows.
#[verifier::external_body]
fn system_now() -> (t: SystemTime) {
    SystemTime::now()
}

/// The time elapsed from the Unix epoch to `t`
/// (`std::time::SystemTime::duration_since` with `UNIX_EPOCH`). It is an
/// error when `t` lies before the epoch; nothing more is stated, since `t`
/// is opaque here.
#[verifier::external_body]
fn elapsed_since_unix_epoch(t: &SystemTime) -> (d: Result<Duration, SystemTimeError>) {
    t.duration_since(SystemTime::UNIX_EPOCH)
}

/// The whole seconds of a duration (`core::time::Duration::as_secs`).
/// The duration is opaque here, so nothing is stated of the count.
#[verifier::external_body]
fn whole_seconds(d: &Duration) -> (s: u64) {
    d.as_secs()
}

/// The current time in whole seconds since the Unix epoch, or `None` when
/// the system clock shows a time before the epoch. The value comes from the
/// machine's clock, so no clause can say which it is.
pub fn get_current_time() -> (now: Option<u64>) {
    let t = system_now();
    match elapsed_since_unix_epoch(&t) {
        Ok(d) => Some(whole_seconds(&d)),
        Err(_) => None,
    }
}

} // verus!
