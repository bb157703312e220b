//! The wall clock that issuing and validating share.

use vstd::prelude::*;

verus! {

/// The current time in whole seconds since the Unix epoch, before it or
/// after: the reading of `std::time::SystemTime::now`, turned into a
/// `chrono::DateTime<Utc>` and read with `DateTime::timestamp`.
///
/// Nothing is claimed of the value: it is whatever the system clock says.
#[verifier::external_body]
fn unix_now() -> i64 {
    chrono::DateTime::<chrono::Utc>::from(std::time::SystemTime::now()).timestamp()
}

/// The seconds since the Unix epoch that the clock reading `reading`
/// stands for: a reading before the epoch counts as the epoch.
pub open spec fn since_epoch(reading: i64) -> u64 {
    if reading < 0 {
        0
    } else {
        reading as u64
    }
}

/// Turns a clock reading into seconds since the Unix epoch. A reading
/// before the epoch counts as the epoch.
pub fn seconds_since_epoch(reading: i64) -> (seconds: u64)
    ensures
        seconds == since_epoch(reading),
{
    if reading < 0 {
        0
    } else {
        reading as u64
    }
}

/// The current time in whole seconds since the Unix epoch: what some
/// reading of the clock stands for.
pub(crate) fn now() -> (seconds: u64)
    ensures
        exists|reading: i64| seconds == #[trigger] since_epoch(reading),
{
    seconds_since_epoch(unix_now())
}

} // verus!
