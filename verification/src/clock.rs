//! The one place the library reads the wall clock.
//!
//! Every time-dependent computation in the crate takes an instant as an
//! argument and is verified for every value of it; only the thin entry
//! points call this wrapper to obtain "now".

use vstd::prelude::*;

verus! {

/// Relies on `std::time::SystemTime::now` and
/// `SystemTime::duration_since(UNIX_EPOCH)`: milliseconds since the Unix
/// epoch, or 0 when the clock reads earlier than the epoch. Nothing can be
/// promised of a clock reading, so this has no contract; callers state what
/// holds of every value.
#[verifier::external_body]
pub fn clock_now_millis() -> u64 {
    std::time::SystemTime::now().duration_since(std::time::UNIX_EPOCH).map(
        |d| d.as_millis() as u64,
    ).unwrap_or(0)
}

} // verus!
