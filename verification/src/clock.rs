//! Wall-clock access used to flavour generation stamps with the current time.

use vstd::prelude::*;

verus! {

/// Relies on `instant::SystemTime::now` / `duration_since`: milliseconds since
/// the Unix epoch, or 0 if the clock reads before the epoch. Nothing is
/// promised of the value; callers must hold for every outcome.
#[verifier::external_body]
pub(crate) fn now_millis() -> u64 {
    match instant::SystemTime::now().duration_since(instant::SystemTime::UNIX_EPOCH) {
        Ok(d) => d.as_millis() as u64,
        Err(_) => 0,
    }
}

} // verus!
