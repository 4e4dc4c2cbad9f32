//! The wall clock.

use vstd::prelude::*;

verus! {

/// Largest distance from the epoch, in seconds, that the clock can report.
pub const CLOCK_LIMIT: i64 = 200_000_000_000_000;

/// Current time in whole seconds since the Unix epoch.
///
/// Calls `chrono::Utc::now` and `chrono::DateTime::timestamp`. Nothing is
/// claimed about which instant comes back. The bound is the only claim: chrono
/// counts days in an `i32` and computes the timestamp as days times 86400 plus
/// the second of the day, which stays far inside `CLOCK_LIMIT`. On a machine
/// whose clock stands before the epoch chrono does not return at all.
#[verifier::external_body]
pub(crate) fn unix_now() -> (now: i64)
    ensures
        -CLOCK_LIMIT < now < CLOCK_LIMIT,
{
    chrono::Utc::now().timestamp()
}

} // verus!
