//! The wall clock, through the `chrono` crate.

use vstd::prelude::*;

verus! {

/// Relies on `chrono::Utc::now` and `DateTime::timestamp_millis`: the current
/// time as milliseconds since the Unix epoch. The result depends on the
/// system clock, so nothing is stated of its value. `Utc::now` panics if the
/// system clock is set before the epoch; that lies outside any parameter and
/// cannot be ruled out here.
#[verifier::external_body]
pub(crate) fn current_millis() -> (r: i64)
{
    chrono::Utc::now().timestamp_millis()
}

} // verus!
