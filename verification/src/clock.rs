//! Observation times.

use vstd::prelude::*;

verus! {

/// A point in time: whole seconds since the Unix epoch and the nanoseconds
/// past that second. During a leap second `nanos` runs past 999,999,999.
#[derive(Clone, Copy, Debug, PartialEq, Eq, Structural)]
pub struct Timestamp {
    pub secs: i64,
    pub nanos: u32,
}

impl Timestamp {
    /// Chronological order: by second, then by nanosecond.
    pub open spec fn precedes_or_equals(self, later: Timestamp) -> bool {
        self.secs < later.secs || (self.secs == later.secs && self.nanos <= later.nanos)
    }

    pub fn new(secs: i64, nanos: u32) -> (t: Timestamp)
        ensures
            t == (Timestamp { secs, nanos }),
    {
        Timestamp { secs, nanos }
    }

    /// Whether `self` is no later than `later`.
    pub fn is_at_or_before(&self, later: &Timestamp) -> (b: bool)
        ensures
            b == self.precedes_or_equals(*later),
    {
        self.secs < later.secs || (self.secs == later.secs && self.nanos <= later.nanos)
    }
}

/// Reads the wall clock through `chrono::Local::now` and keeps the instant
/// as `DateTime::timestamp` and `DateTime::timestamp_subsec_nanos` give it.
/// Nothing is claimed of the value: the wall clock may repeat itself or step
/// backwards between two calls.
#[verifier::external_body]
pub(crate) fn wall_clock_now() -> Timestamp {
    let now = chrono::Local::now();
    Timestamp { secs: now.timestamp(), nanos: now.timestamp_subsec_nanos() }
}

} // verus!
