//! The wall clock, at the interface of `std::time`.

use vstd::prelude::*;

verus! {

/// Relies on `std::time::SystemTime`: whole seconds since the Unix epoch,
/// zero for a clock set before it. Nothing is promised of the reading;
/// every caller that decides on it takes the reading as an argument.
#[verifier::external_body]
pub(crate) fn now_unix_seconds() -> u64 {
    std::time::SystemTime::now()
        .duration_since(std::time::UNIX_EPOCH)
        .map(|d| d.as_secs())
        .unwrap_or(0)
}

} // verus!
