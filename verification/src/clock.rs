//! The wall-clock collaborator of the time-based variant.

use vstd::prelude::*;

verus! {

/// Relies on std::time::SystemTime: the whole seconds between the Unix epoch
/// and the clock's current reading, or None when the clock reads before the
/// epoch. The value depends on the wall clock at the moment of the call, so
/// nothing is promised of it; callers state what holds of every outcome.
#[verifier::external_body]
pub(crate) fn unix_time_seconds() -> Option<u64> {
    match std::time::SystemTime::now().duration_since(std::time::UNIX_EPOCH) {
        Ok(d) => Some(d.as_secs()),
        Err(_) => None,
    }
}

} // verus!
