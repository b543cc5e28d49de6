//! The wall-clock reading used to stamp log entries.

use vstd::prelude::*;

verus! {

/// Relies on `chrono::Local::now` and the `chrono::Timelike` accessors:
/// the hour of the current local time is 0 to 23, the minute 0 to 59 and
/// the second 0 to 59.
#[verifier::external_body]
pub(crate) fn local_time_hms() -> (r: (u32, u32, u32))
    ensures
        r.0 < 24,
        r.1 < 60,
        r.2 < 60,
{
    let now = chrono::Local::now();
    (chrono::Timelike::hour(&now), chrono::Timelike::minute(&now), chrono::Timelike::second(&now))
}

} // verus!
