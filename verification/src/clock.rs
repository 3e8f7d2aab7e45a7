//! The wall clock.

use vstd::prelude::*;

verus! {

/// A point in time: whole seconds since the Unix epoch, and the nanoseconds
/// into that second.
#[derive(Clone, Copy, Debug, PartialEq, Eq, Structural)]
pub struct Timestamp {
    pub seconds: i64,
    pub nanos: u32,
}

impl Timestamp {
    /// Whether this is a time that the clock can read: not before the
    /// epoch, and less than a second into its second.
    pub open spec fn is_reading(self) -> bool {
        0 <= self.seconds && self.nanos < 1_000_000_000
    }
}

/// `chrono::Utc::now`, read with `DateTime::timestamp` and
/// `DateTime::timestamp_subsec_nanos`: the current time. The call takes the
/// time that has passed since the epoch, so the seconds are not negative
/// and the nanoseconds are less than a second; nothing else is promised.
#[verifier::external_body]
pub(crate) fn now() -> (t: Timestamp)
    ensures
        t.is_reading(),
{
    let t = chrono::Utc::now();
    Timestamp { seconds: t.timestamp(), nanos: t.timestamp_subsec_nanos() }
}

} // verus!
