//! The monotonic clock that the state machines read.

use vstd::prelude::*;
use std::time::Duration;

verus! {

/// A point on the monotonic clock of the operating system.
#[verifier::external_type_specification]
#[verifier::external_body]
pub struct ExInstant(std::time::Instant);

/// Source of time: counts milliseconds from the moment it was made.
#[derive(Debug)]
pub struct Clock {
    origin: std::time::Instant,
}

/// Calls `std::time::Instant::now`. Nothing is claimed of the point in time
/// that it returns.
#[verifier::external_body]
fn instant_now() -> (t: std::time::Instant) {
    std::time::Instant::now()
}

/// Calls `std::time::Instant::elapsed`. Nothing is claimed of the duration
/// that it returns.
#[verifier::external_body]
fn elapsed_since(origin: &std::time::Instant) -> (d: Duration) {
    origin.elapsed()
}

/// Calls `std::time::Duration::as_millis`. Nothing is claimed of the number
/// that it returns.
#[verifier::external_body]
fn whole_millis(d: &Duration) -> (ms: u128) {
    d.as_millis()
}

/// The point in time `dur` milliseconds after `now`, held at the largest
/// representable point where the sum lies beyond it.
pub open spec fn deadline_after(now: u64, dur: u64) -> u64 {
    if now + dur > u64::MAX {
        u64::MAX
    } else {
        (now + dur) as u64
    }
}

/// Computes `deadline_after`.
pub fn instant_after(now: u64, dur: u64) -> (t: u64)
    ensures
        t == deadline_after(now, dur),
{
    if dur > u64::MAX - now {
        u64::MAX
    } else {
        now + dur
    }
}

/// The later of two points in time.
pub open spec fn later_of(a: u64, b: u64) -> u64 {
    if a >= b {
        a
    } else {
        b
    }
}

/// Computes `later_of`.
pub fn instant_max(a: u64, b: u64) -> (t: u64)
    ensures
        t == later_of(a, b),
{
    if a >= b {
        a
    } else {
        b
    }
}

/// The point in time that a count of milliseconds stands for: the count
/// itself, held at the largest representable point beyond it.
pub open spec fn instant_of_millis(ms: u128) -> u64 {
    if ms > u64::MAX {
        u64::MAX
    } else {
        ms as u64
    }
}

/// Computes `instant_of_millis`.
pub fn millis_to_instant(ms: u128) -> (t: u64)
    ensures
        t == instant_of_millis(ms),
{
    if ms > 0xffff_ffff_ffff_ffffu128 {
        u64::MAX
    } else {
        ms as u64
    }
}

impl Clock {
    /// A clock that starts counting now. The moment is that of the operating
    /// system's clock, of which nothing is known here.
    pub fn new() -> (c: Clock) {
        Clock { origin: instant_now() }
    }

    /// Milliseconds since the clock was made, as `millis_to_instant` gives
    /// them for the count that the operating system reports. Of that count
    /// nothing is known here, so nothing is promised of the result.
    pub fn now(&self) -> (t: u64) {
        let d = elapsed_since(&self.origin);
        let ms: u128 = whole_millis(&d);
        millis_to_instant(ms)
    }
}

} // verus!
