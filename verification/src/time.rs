//! Moments in time: the clock that requests are stamped with, and the
//! instants that resources carry.

use vstd::prelude::*;

verus! {

/// An instant in UTC: the whole seconds since the epoch, which are negative
/// before 1970, and the nanoseconds since the start of that second.
#[derive(Debug, Clone, Copy, PartialEq, Eq)]
pub struct Timestamp {
    pub seconds: i64,
    pub nanoseconds: u32,
}

/// `std::time::SystemTime::now()`, turned into a `chrono::DateTime<Utc>`
/// by chrono's `From`, and of that `timestamp()`: the whole seconds that
/// the system clock counts since the epoch, negative for a clock that is
/// set before 1970. Nothing is claimed of the number. The conversion
/// refuses only a clock outside chrono's range of dates, some 262,000
/// years on either side of the epoch.
#[verifier::external_body]
pub(crate) fn current_time() -> (r: i64) {
    chrono::DateTime::<chrono::Utc>::from(std::time::SystemTime::now()).timestamp()
}

} // verus!
