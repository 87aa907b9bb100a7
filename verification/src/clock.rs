//! The one outside capability this core reads: the clock.

use vstd::prelude::*;

verus! {

/// Relies on `std::time::SystemTime::now` and
/// `SystemTime::duration_since(UNIX_EPOCH)`: microseconds since the Unix
/// epoch, or zero for a system clock set before it. The value depends on when
/// the call runs, so nothing is promised of it; callers state what holds for
/// every reading.
#[verifier::external_body]
pub(crate) fn now_micros() -> u128 {
    match std::time::SystemTime::now().duration_since(std::time::UNIX_EPOCH) {
        Ok(since_epoch) => since_epoch.as_micros(),
        Err(_) => 0,
    }
}

} // verus!
