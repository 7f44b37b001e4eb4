use vstd::prelude::*;

verus! {

/// The latest time that the clock can show, in seconds since the Unix
/// epoch: the last second of the last day whose number, counted from the
/// first day of the year 1, still fits 32 bits.
pub const LATEST_CLOCK_TIME: i64 = 185_480_451_503_999;

/// Reads the system clock with `chrono::Utc::now` and gives the time in
/// whole seconds since the Unix epoch (`DateTime::timestamp`).
///
/// Trusted: the time is no later than [`LATEST_CLOCK_TIME`]. `Utc::now`
/// makes its value with `DateTime::from_timestamp`, which refuses every
/// later second, and `timestamp` gives back the second it was made from.
/// Nothing else is claimed: the time is whatever the machine says.
/// `Utc::now` panics on a machine whose clock is set before the epoch or
/// after that latest time.
#[verifier::external_body]
pub(crate) fn unix_now() -> (now: i64)
    ensures
        now <= LATEST_CLOCK_TIME,
{
    chrono::Utc::now().timestamp()
}

} // verus!
