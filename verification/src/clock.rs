//! Wall-clock instants, measured as milliseconds since the Unix epoch.

use vstd::prelude::*;

verus! {

/// Largest magnitude (in milliseconds) a wall-clock reading can have.
/// `chrono`'s `DateTime` is confined to years -262144..=262142, so a
/// millisecond timestamp stays well below this bound, which itself is small
/// enough that the difference of two readings never overflows an `i64`.
pub const MAX_CLOCK_MILLIS: i64 = 9_000_000_000_000_000;

/// An `i64` that can be a wall-clock reading.
pub open spec fn valid_clock(t: i64) -> bool {
    -MAX_CLOCK_MILLIS <= t <= MAX_CLOCK_MILLIS
}

/// Relies on `chrono::Utc::now` and `chrono::DateTime::timestamp_millis`:
/// the current time as milliseconds since the Unix epoch. Nothing is assumed
/// about the value beyond the range that `chrono`'s bounded `DateTime` type
/// forces; in particular, successive readings need not increase.
#[verifier::external_body]
pub(crate) fn now_millis() -> (r: i64)
    ensures
        valid_clock(r),
{
    chrono::Utc::now().timestamp_millis()
}

} // verus!
