//! Time values: the record times of `chrono`, and the system clock.

use vstd::prelude::*;
use chrono::NaiveDateTime;

verus! {

/// `chrono::NaiveDateTime`, the creation and update times of stored records.
/// The library carries such values without reading them.
#[verifier::external_type_specification]
#[verifier::external_body]
pub struct ExNaiveDateTime(NaiveDateTime);

/// `std::time::UNIX_EPOCH.elapsed()`: the whole seconds from the UNIX epoch to
/// the current system time, or `None` where the system clock reads before the
/// epoch (`SystemTime::elapsed` returns an error then, and does not panic).
/// Each call may give another value, so nothing is stated of the result.
#[verifier::external_body]
pub(crate) fn unix_now() -> Option<u64> {
    match std::time::UNIX_EPOCH.elapsed() {
        Ok(elapsed) => Some(elapsed.as_secs()),
        Err(_) => None,
    }
}

} // verus!
