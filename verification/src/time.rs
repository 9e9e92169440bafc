//! Wall-clock seconds and points in time derived from them.

use vstd::prelude::*;

verus! {

/// The seconds since the Unix epoch on the system clock.
///
/// Calls `chrono::Utc::now` and `chrono::DateTime::timestamp`, and turns the
/// signed count into an unsigned one. `Utc::now` panics while the system clock
/// stands before the epoch and otherwise yields a date at or after it, of which
/// `timestamp` gives a count that is not negative. So the contract claims that
/// the result fits the positive half of `i64`; of the value itself it claims
/// nothing, and two calls may differ.
#[verifier::external_body]
pub(crate) fn now() -> (seconds: u64)
    ensures
        seconds <= i64::MAX,
{
    chrono::Utc::now().timestamp() as u64
}

/// The point in time `seconds` after `start`.
pub fn from_point(start: u64, seconds: u32) -> (point: u64)
    requires
        start + seconds <= u64::MAX,
    ensures
        point == start + seconds,
{
    start + seconds as u64
}

/// The point in time `seconds` after the present moment. The clock decides
/// the value; it lies no less than `seconds` after the epoch.
pub fn in_future(seconds: u32) -> (point: u64)
    ensures
        seconds <= point <= i64::MAX + seconds,
{
    let start = now();
    from_point(start, seconds)
}

} // verus!
