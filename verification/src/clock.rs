//! The wall clock.
use vstd::prelude::*;

verus! {

/// Reads the current time with `chrono::Utc::now`, in microseconds since the Unix epoch.
/// Nothing is stated of the reading: two calls may give any two values.
#[verifier::external_body]
pub(crate) fn now_micros() -> (t: i64) {
    chrono::Utc::now().timestamp_micros()
}

} // verus!
