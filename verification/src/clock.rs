//! Time: its unit, the lengths that the rules name, and the clock.
//!
//! A time is a count of nanoseconds since the clock was made. A `u64` holds
//! more than five hundred years of them.

use vstd::prelude::*;

verus! {

/// Nanoseconds in a second.
pub const NANOS_PER_SECOND: u64 = 1_000_000_000;

/// Length of the first and of the second break tier.
pub const FIVE_MINUTES: u64 = 300_000_000_000;

/// Length of the third break tier.
pub const FIFTEEN_MINUTES: u64 = 900_000_000_000;

/// The time a task is expected to take unless told otherwise: two hours.
pub const DEFAULT_EXPECTED_DURATION: u64 = 7_200_000_000_000;

/// Time that has passed at `now` since `since`; zero when `since` is later.
pub open spec fn gap(now: nat, since: nat) -> nat {
    if now >= since {
        (now - since) as nat
    } else {
        0
    }
}

/// A reading of the clock, or its absence, as a mathematical value.
pub open spec fn instant_view(t: Option<u64>) -> Option<nat> {
    match t {
        Some(v) => Some(v as nat),
        None => None,
    }
}

/// `std::time::Instant`, a reading of the machine's monotonic clock. Nothing
/// is known of what a value of it holds.
#[verifier::external_type_specification]
#[verifier::external_body]
pub struct ExInstant(std::time::Instant);

/// `std::time::Instant::now` reads the machine's monotonic clock. Nothing is
/// claimed of what it reads.
pub assume_specification[ std::time::Instant::now ]() -> (r: std::time::Instant);

/// `std::time::Instant::saturating_duration_since` gives the time from
/// `earlier` to `later`, zero if `earlier` is the later one. Nothing is
/// claimed of the duration.
pub assume_specification[ std::time::Instant::saturating_duration_since ](
    later: &std::time::Instant,
    earlier: std::time::Instant,
) -> (r: std::time::Duration);

/// `std::time::Duration::as_nanos` gives the whole duration in nanoseconds.
/// Nothing is claimed of the number.
pub assume_specification[ std::time::Duration::as_nanos ](d: &std::time::Duration) -> (r: u128);

/// A clock that starts at zero and never runs backwards.
///
/// It reads the machine's monotonic clock, and holds on to its latest
/// reading: should the machine ever hand out an earlier time, the clock
/// repeats the latest one instead.
pub struct Clock {
    origin: std::time::Instant,
    latest: u64,
}

/// The reading of a clock whose latest reading was `latest` when the
/// machine's clock shows `nanos` since the clock was made: `nanos`, as far
/// as a `u64` holds it, and no less than `latest`.
pub open spec fn clock_reading(latest: nat, nanos: nat) -> nat {
    let held = if nanos > u64::MAX {
        u64::MAX as nat
    } else {
        nanos
    };
    if held >= latest {
        held
    } else {
        latest
    }
}

impl Clock {
    /// The latest reading, zero before the first.
    pub closed spec fn latest(&self) -> nat {
        self.latest as nat
    }

    /// The reading of the machine's clock at which the clock was made.
    pub closed spec fn origin(&self) -> std::time::Instant {
        self.origin
    }

    /// A clock that starts now.
    pub fn new() -> (clock: Clock)
        ensures
            clock.latest() == 0,
    {
        Clock { origin: std::time::Instant::now(), latest: 0 }
    }

    /// Reads the clock: the nanoseconds since it was made, and no less than
    /// the reading before.
    pub fn now(&mut self) -> (t: u64)
        ensures
            t >= old(self).latest(),
            final(self).latest() == t,
            final(self).origin() == old(self).origin(),
    {
        let since_origin = std::time::Instant::now().saturating_duration_since(self.origin);
        self.advance_to(since_origin.as_nanos())
    }

    /// Takes note that the machine's clock shows `nanos` nanoseconds since
    /// the clock was made, and gives the clock's reading: `nanos`, as far
    /// as a `u64` holds it, and no less than the reading before.
    pub fn advance_to(&mut self, nanos: u128) -> (t: u64)
        ensures
            t == clock_reading(old(self).latest(), nanos as nat),
            final(self).latest() == t,
            final(self).origin() == old(self).origin(),
    {
        let held: u64 = if nanos > u64::MAX as u128 {
            u64::MAX
        } else {
            nanos as u64
        };
        if held > self.latest {
            self.latest = held;
        }
        self.latest
    }

    /// The latest reading, zero before the first.
    pub fn last(&self) -> (t: u64)
        ensures
            t == self.latest(),
    {
        self.latest
    }
}

} // verus!
