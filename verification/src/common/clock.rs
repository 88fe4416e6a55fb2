//! The time of day, as text.

use vstd::prelude::*;

verus! {

/// The current time in UTC, as `chrono` prints it: the date, the time and the
/// offset.
///
/// Calls `chrono::Utc::now` and formats the result with its `Display`. The
/// text depends on the clock, so nothing is claimed of it. `chrono` stops
/// the process where the system clock stands before 1970.
#[verifier::external_body]
pub(crate) fn utc_now() -> (text: String) {
    chrono::Utc::now().to_string()
}

} // verus!
