//! The system clock.

use vstd::prelude::*;

verus! {

/// Seconds since the Unix epoch, from `std::time::SystemTime::now`
/// (0 for a clock set before the epoch). Nothing is promised of the value:
/// it is the time.
#[verifier::external_body]
pub(crate) fn now_unix_secs() -> (r: u64) {
    match std::time::SystemTime::now().duration_since(std::time::UNIX_EPOCH) {
        Ok(d) => d.as_secs(),
        Err(_) => 0,
    }
}

} // verus!
