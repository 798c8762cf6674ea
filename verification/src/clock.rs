//! Points in time, as the aggregate records them.

use vstd::prelude::*;

verus! {

/// A point in time: whole seconds since 1970-01-01 00:00:00 UTC, and the
/// nanoseconds into that second.
#[derive(Clone, Copy, Debug, PartialEq, Eq, Structural)]
pub struct Timestamp {
    pub seconds: i64,
    pub nanos: u32,
}

impl Timestamp {
    /// The start of the epoch, which is also the timestamp of an aggregate
    /// that no event has touched.
    pub open spec fn epoch() -> Timestamp {
        Timestamp { seconds: 0, nanos: 0 }
    }

    pub fn new(seconds: i64, nanos: u32) -> (t: Timestamp)
        ensures
            t == (Timestamp { seconds, nanos }),
    {
        Timestamp { seconds, nanos }
    }
}

impl Default for Timestamp {
    fn default() -> (t: Timestamp)
        ensures
            t == Timestamp::epoch(),
    {
        Timestamp { seconds: 0, nanos: 0 }
    }
}

/// Reads the system clock through `chrono::Utc::now`.
///
/// Nothing is known of the instant but what chrono's source shows of every
/// reading: it is not before the epoch, and the sub-second part is a true
/// fraction of a second. chrono panics where the system clock stands before
/// 1970.
#[verifier::external_body]
pub(crate) fn now() -> (t: Timestamp)
    ensures
        t.seconds >= 0,
        t.nanos < 1_000_000_000,
{
    let instant = chrono::Utc::now();
    Timestamp { seconds: instant.timestamp(), nanos: instant.timestamp_subsec_nanos() }
}

} // verus!
