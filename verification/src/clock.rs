//! The wall clock, read through an outside crate.

use vstd::prelude::*;

verus! {

/// Relies on chrono's `From<SystemTime>` conversion for `DateTime<Utc>`
/// and on `DateTime::timestamp_millis`: the current wall-clock time as
/// milliseconds since the Unix epoch. The conversion handles a clock
/// set before the epoch without panicking. Nothing is promised of the
/// value; callers state only what holds of every reading.
#[verifier::external_body]
pub(crate) fn now_millis() -> i64 {
    chrono::DateTime::<chrono::Utc>::from(std::time::SystemTime::now()).timestamp_millis()
}

} // verus!
