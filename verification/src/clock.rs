//! Time sources.
//!
//! Instants are plain integers: nanoseconds on a monotonic clock, counted from
//! the moment the [`Clock`] was made. Wall-clock time is milliseconds since the
//! Unix epoch.

use std::time::Instant;
use vstd::prelude::*;

verus! {

/// Nanoseconds in one millisecond.
pub const NANOS_PER_MILLI: u128 = 1_000_000;

/// Nanoseconds in one second.
pub const NANOS_PER_SEC: u128 = 1_000_000_000;

/// `std::time::Instant`, opaque to the verifier.
#[verifier::external_type_specification]
#[verifier::external_body]
pub struct ExInstant(Instant);

/// Calls `std::time::Instant::now`. Nothing is claimed of the instant returned.
#[verifier::external_body]
fn instant_now() -> Instant {
    Instant::now()
}

/// Calls `Instant::elapsed` on `origin` and hands the duration out in
/// nanoseconds (`Duration::as_nanos`). The reading depends on when the call is
/// made, so nothing is claimed of it.
#[verifier::external_body]
fn nanos_since(origin: &Instant) -> u128 {
    origin.elapsed().as_nanos()
}

/// Calls `chrono::Utc::now` and hands the time out as milliseconds since the
/// Unix epoch (`DateTime::timestamp_millis`). Nothing is claimed of the value.
/// chrono panics when the system clock reads a time before 1970.
#[verifier::external_body]
pub(crate) fn utc_now_millis() -> i64 {
    chrono::Utc::now().timestamp_millis()
}

/// Whole milliseconds from `earlier` to `later`, both in nanoseconds; zero when
/// `later` lies before `earlier`.
pub open spec fn span_millis(later: u128, earlier: u128) -> int {
    if later >= earlier {
        (later - earlier) / 1_000_000
    } else {
        0
    }
}

/// Nanoseconds from `earlier` to `later`; zero when `later` lies before `earlier`.
pub open spec fn span_nanos(later: u128, earlier: u128) -> int {
    if later >= earlier {
        later - earlier
    } else {
        0
    }
}

/// Computes [`span_millis`].
pub fn millis_between(later: u128, earlier: u128) -> (ms: u128)
    ensures
        ms == span_millis(later, earlier),
{
    if later >= earlier {
        (later - earlier) / NANOS_PER_MILLI
    } else {
        0
    }
}

/// Computes [`span_nanos`].
pub fn nanos_between(later: u128, earlier: u128) -> (ns: u128)
    ensures
        ns == span_nanos(later, earlier),
{
    if later >= earlier {
        later - earlier
    } else {
        0
    }
}

/// A monotonic clock with its own origin.
#[derive(Clone, Copy, Debug)]
pub struct Clock {
    origin: Instant,
}

impl Clock {
    /// A clock whose origin is the moment of the call.
    pub fn new() -> Clock {
        Clock { origin: instant_now() }
    }

    /// Nanoseconds that have passed since the clock was made.
    pub fn now(&self) -> u128 {
        nanos_since(&self.origin)
    }
}

} // verus!
