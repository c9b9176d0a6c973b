//! The wall clock, read through `chrono`.

use vstd::prelude::*;

use crate::types::Timestamp;

verus! {

/// The current time from `chrono::Utc::now`, as whole seconds since the Unix epoch
/// (`DateTime::timestamp`) and the nanoseconds within that second
/// (`DateTime::timestamp_subsec_nanos`). The time itself is not stated; the
/// contract says only that the nanoseconds stay below one second, as `now`
/// builds the value from a `Duration`'s sub-second nanoseconds.
#[verifier::external_body]
pub(crate) fn now() -> (t: Timestamp)
    ensures
        t.nanos < 1_000_000_000,
{
    let now = chrono::Utc::now();
    Timestamp { secs: now.timestamp(), nanos: now.timestamp_subsec_nanos() }
}

} // verus!
