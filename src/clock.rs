//! Reading the wall clock.
use vstd::prelude::*;

verus! {

/// Relies on `SystemTime::now` and `SystemTime::duration_since(UNIX_EPOCH)`:
/// the current wall-clock time in whole milliseconds since the Unix epoch, or
/// `None` where the clock reads earlier than that epoch. The reading depends on
/// the moment of the call, so nothing is stated of it.
#[verifier::external_body]
pub(crate) fn unix_millis_now() -> (r: Option<u128>) {
    match std::time::SystemTime::now().duration_since(std::time::UNIX_EPOCH) {
        Ok(elapsed) => Some(elapsed.as_millis()),
        Err(_) => None,
    }
}

} // verus!
