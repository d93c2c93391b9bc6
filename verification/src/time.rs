//! Wall-clock time, as the protocol and the records carry it.

use vstd::prelude::*;

verus! {

/// A point in time: whole seconds since the Unix epoch, and the nanoseconds
/// since the last second boundary.
#[derive(Clone, Copy, Debug, PartialEq, Eq, Structural)]
pub struct Timestamp {
    /// Non-leap seconds since 1970-01-01 00:00:00 UTC.
    pub secs: i64,
    /// Nanoseconds since the last second boundary.
    pub nanos: u32,
}

/// `Utc::now` of the crate `chrono`, read through `DateTime::timestamp` and
/// `DateTime::timestamp_subsec_nanos`: the wall-clock time of the call. It is
/// a reading of the machine's clock, so nothing is known of it. The call
/// panics on a machine whose clock stands before 1970, which no argument
/// decides.
#[verifier::external_body]
pub(crate) fn wall_clock() -> (now: Timestamp) {
    let now = chrono::Utc::now();
    Timestamp { secs: now.timestamp(), nanos: now.timestamp_subsec_nanos() }
}

} // verus!
