//! The clocks: the system clock, read as time since the Unix epoch, and the
//! monotonic clock, read as instants whose distance is measured.
use vstd::prelude::*;

use std::time::{Duration, Instant, SystemTime};

verus! {

/// A reading of the monotonic clock.
#[verifier::external_type_specification]
#[verifier::external_body]
pub struct ExInstant(Instant);

/// A reading of the system clock.
#[verifier::external_type_specification]
#[verifier::external_body]
pub struct ExSystemTime(SystemTime);

/// Reads the system clock.
///
/// Wraps `SystemTime::now`. Nothing is claimed of the value: it is the time.
#[verifier::external_body]
pub(crate) fn system_now() -> (r: SystemTime) {
    SystemTime::now()
}

/// The time elapsed from the Unix epoch to `t`, or `None` when `t` lies
/// before the epoch.
///
/// Wraps `SystemTime::duration_since` with `UNIX_EPOCH` as the earlier
/// time; its error (a time before the epoch) becomes `None`. Nothing is
/// claimed of the span.
#[verifier::external_body]
pub(crate) fn since_epoch(t: &SystemTime) -> (r: Option<Duration>) {
    match t.duration_since(std::time::UNIX_EPOCH) {
        Ok(d) => Some(d),
        Err(_) => None,
    }
}

/// The whole nanoseconds of a span.
///
/// Wraps `Duration::as_nanos`. Nothing is claimed of the number, which
/// this library reads only as a clock value.
#[verifier::external_body]
pub(crate) fn nanos_of(d: &Duration) -> (r: u128) {
    d.as_nanos()
}

/// The whole milliseconds of a span.
///
/// Wraps `Duration::as_millis`. Nothing is claimed of the number, which
/// this library reads only as a clock value.
#[verifier::external_body]
pub(crate) fn millis_of(d: &Duration) -> (r: u128) {
    d.as_millis()
}

/// Reads the monotonic clock.
///
/// Wraps `Instant::now`. Nothing is claimed of the value: it is the time.
#[verifier::external_body]
pub(crate) fn instant_now() -> (r: Instant) {
    Instant::now()
}

/// The time from `earlier` to `later`.
///
/// Wraps `Instant::duration_since`, which gives zero when `earlier` is the
/// later of the two. Nothing is claimed of the span.
#[verifier::external_body]
pub(crate) fn elapsed_between(later: &Instant, earlier: &Instant) -> (r: Duration) {
    later.duration_since(*earlier)
}

/// The system clock in nanoseconds since the Unix epoch, or `None` when
/// it reads earlier than the epoch.
pub(crate) fn unix_time_nanos() -> (r: Option<u128>) {
    let now = system_now();
    match since_epoch(&now) {
        Some(d) => Some(nanos_of(&d)),
        None => None,
    }
}

/// The whole seconds in a number of nanoseconds, capped at `u64::MAX`.
pub open spec fn secs_of_nanos(n: u128) -> u64 {
    if n / 1_000_000_000 <= 0xFFFF_FFFF_FFFF_FFFF { (n / 1_000_000_000) as u64 } else { 0xFFFF_FFFF_FFFF_FFFF }
}

/// The whole seconds in a number of nanoseconds, capped at `u64::MAX`.
pub fn whole_seconds(n: u128) -> (r: u64)
    ensures
        r == secs_of_nanos(n),
{
    let s = n / 1_000_000_000;
    if s <= 0xFFFF_FFFF_FFFF_FFFF { s as u64 } else { 0xFFFF_FFFF_FFFF_FFFF }
}

} // verus!
