//! Points in time, as the domain compares them.
//!
//! A [`Timestamp`] holds what a UTC date-time reports as its UNIX timestamp:
//! whole non-leap seconds since 1970-01-01T00:00:00Z and the nanoseconds past
//! that second (which exceed 999,999,999 only inside a leap second). Ordering
//! is lexicographic on the pair, which is the order of the date-times.
use vstd::prelude::*;

verus! {

/// A UTC instant: seconds since the UNIX epoch and nanoseconds past them.
#[derive(Debug, Clone, Copy, PartialEq, Eq, Structural)]
pub struct Timestamp {
    /// Whole non-leap seconds since 1970-01-01T00:00:00Z.
    pub seconds: i64,
    /// Nanoseconds past `seconds`.
    pub nanos: u32,
}

impl Timestamp {
    /// `self` is strictly earlier than `other`.
    pub open spec fn precedes(self, other: Timestamp) -> bool {
        ||| self.seconds < other.seconds
        ||| (self.seconds == other.seconds && self.nanos < other.nanos)
    }

    /// Builds the instant `seconds` + `nanos` nanoseconds after the epoch.
    pub fn from_unix(seconds: i64, nanos: u32) -> (t: Timestamp)
        ensures
            t == (Timestamp { seconds, nanos }),
    {
        Timestamp { seconds, nanos }
    }

    /// Returns `true` if `self` is strictly earlier than `other`.
    pub fn is_before(&self, other: &Timestamp) -> (b: bool)
        ensures
            b == self.precedes(*other),
    {
        self.seconds < other.seconds || (self.seconds == other.seconds && self.nanos < other.nanos)
    }

    /// Returns `true` if `self` is strictly later than `other`.
    pub fn is_after(&self, other: &Timestamp) -> (b: bool)
        ensures
            b == other.precedes(*self),
    {
        other.is_before(self)
    }
}

/// `precedes` is a strict total order on instants.
pub proof fn lemma_precedes_strict_total_order(a: Timestamp, b: Timestamp, c: Timestamp)
    ensures
        !a.precedes(a),
        a.precedes(b) ==> !b.precedes(a),
        a.precedes(b) && b.precedes(c) ==> a.precedes(c),
        a.precedes(b) || b.precedes(a) || a == b,
{
}

/// Reads the system clock through `chrono::Utc::now`.
///
/// Trusted: on this platform chrono builds the value from the time elapsed
/// since the UNIX epoch, so the seconds are not negative and the nanoseconds
/// stay below one second; which instant comes back is not stated. chrono
/// panics if the system clock reads earlier than the epoch.
#[verifier::external_body]
pub(crate) fn current_time() -> (t: Timestamp)
    ensures
        t.seconds >= 0,
        t.nanos < 1_000_000_000,
{
    let now = chrono::Utc::now();
    Timestamp { seconds: now.timestamp(), nanos: now.timestamp_subsec_nanos() }
}

} // verus!
