//! The time of day.

use vstd::prelude::*;

verus! {

/// Calls `chrono::Utc::now` and gives the result of its `timestamp`: the
/// whole seconds between the Unix epoch and the moment of the call, by the
/// system clock. Nothing is claimed of the number. `chrono` does not return
/// where the clock stands before the epoch.
#[verifier::external_body]
pub(crate) fn unix_now() -> i64 {
    chrono::Utc::now().timestamp()
}

} // verus!
