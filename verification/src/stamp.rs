//! Time stamps: whole seconds since the Unix epoch, in decimal.
use vstd::prelude::*;

use crate::text::{decimal, decimal_string};

verus! {

#[verifier::external_type_specification]
#[verifier::external_body]
pub struct ExSystemTime(std::time::SystemTime);

#[verifier::external_type_specification]
#[verifier::external_body]
pub struct ExSystemTimeError(std::time::SystemTimeError);

/// `std::time::SystemTime::now`: the current time of the system clock.
/// Nothing is stated of it: it is whatever the clock reads.
#[verifier::external_body]
fn system_time_now() -> (t: std::time::SystemTime) {
    std::time::SystemTime::now()
}

/// `SystemTime::duration_since` applied to `UNIX_EPOCH`: the time elapsed
/// since the epoch, or an error for a clock set before it. Nothing is stated
/// of the result: it depends on the clock.
#[verifier::external_body]
fn elapsed_since_unix_epoch(t: &std::time::SystemTime) -> (r: Result<
    std::time::Duration,
    std::time::SystemTimeError,
>) {
    t.duration_since(std::time::UNIX_EPOCH)
}

/// `Duration::as_secs`: the whole seconds of a duration. Nothing is stated:
/// the duration is opaque here.
#[verifier::external_body]
fn whole_seconds(d: &std::time::Duration) -> (secs: u64) {
    d.as_secs()
}

/// Renders a count of seconds as a stamp: its decimal notation.
pub fn stamp_from_secs(secs: u64) -> (s: String)
    ensures
        s@ == decimal(secs as nat),
{
    decimal_string(secs)
}

/// Renders the seconds elapsed since the Unix epoch as a stamp; a clock that
/// reads before the epoch (no elapsed seconds) gives the stamp "0".
pub fn stamp_from_elapsed(elapsed_secs: Option<u64>) -> (s: String)
    ensures
        s@ == decimal(
            match elapsed_secs {
                Some(secs) => secs as nat,
                None => 0,
            },
        ),
{
    match elapsed_secs {
        Some(secs) => stamp_from_secs(secs),
        None => stamp_from_secs(0),
    }
}

/// The current time as a stamp: whole seconds since the Unix epoch in decimal,
/// or "0" when the clock reads a time before the epoch.
pub fn now_stamp() -> (s: String)
    ensures
        exists|secs: u64| s@ == decimal(secs as nat),
{
    let now = system_time_now();
    let elapsed = match elapsed_since_unix_epoch(&now) {
        Ok(d) => Some(whole_seconds(&d)),
        Err(_) => None,
    };
    stamp_from_elapsed(elapsed)
}

} // verus!
