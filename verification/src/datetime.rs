//! Instants on the UTC time line, as seconds and nanoseconds since the Unix epoch.

use vstd::prelude::*;

verus! {

/// An instant in UTC: whole seconds since 1970-01-01T00:00:00Z and the
/// nanoseconds within that second.
#[derive(Clone, Copy, Debug, PartialEq, Eq, Structural)]
pub struct UtcDateTime {
    pub secs: i64,
    pub nanos: u32,
}

/// `a` lies strictly after `b` on the time line.
pub open spec fn is_after(a: UtcDateTime, b: UtcDateTime) -> bool {
    a.secs > b.secs || (a.secs == b.secs && a.nanos > b.nanos)
}

/// An instant the clock can read: on or after the epoch, before 2^43
/// seconds, with fewer than a billion nanoseconds.
pub open spec fn is_clock_reading(t: UtcDateTime) -> bool {
    0 <= t.secs < 0x800_0000_0000 && t.nanos < 1_000_000_000
}

impl UtcDateTime {
    /// The Unix epoch, the default instant.
    pub fn epoch() -> (r: UtcDateTime)
        ensures
            r.secs == 0,
            r.nanos == 0,
    {
        UtcDateTime { secs: 0, nanos: 0 }
    }

    /// Whether `self` lies strictly after `other`.
    pub fn after(&self, other: &UtcDateTime) -> (r: bool)
        ensures
            r == is_after(*self, *other),
    {
        self.secs > other.secs || (self.secs == other.secs && self.nanos > other.nanos)
    }

    /// This instant moved forward by whole seconds.
    pub fn plus_seconds(&self, seconds: i64) -> (r: UtcDateTime)
        requires
            0 <= seconds,
            self.secs + seconds <= i64::MAX,
        ensures
            r.secs == self.secs + seconds,
            r.nanos == self.nanos,
    {
        UtcDateTime { secs: self.secs + seconds, nanos: self.nanos }
    }
}

/// `chrono::Utc::now`: the current instant. Its source reads the system clock
/// as a duration since the Unix epoch, so the seconds are not negative, the
/// nanoseconds stay below one second, and the instant lies within chrono's
/// range (before 2^43 seconds). Nothing else is claimed of the value.
#[verifier::external_body]
pub(crate) fn utc_now() -> (r: UtcDateTime)
    ensures
        is_clock_reading(r),
{
    let now = chrono::Utc::now();
    UtcDateTime { secs: now.timestamp(), nanos: now.timestamp_subsec_nanos() }
}

} // verus!
