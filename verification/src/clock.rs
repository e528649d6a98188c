//! The monotonic tick counter that page freshness is measured against.

use vstd::prelude::*;

verus! {

/// Reads the current time with `embassy_time::Instant::now` and returns its
/// tick count since boot (`Instant::as_ticks`).
///
/// Trusted: the body is not verified. Nothing is claimed of the value, which
/// depends on when the call is made.
#[verifier::external_body]
pub(crate) fn now_ticks() -> (ticks: u64) {
    embassy_time::Instant::now().as_ticks()
}

} // verus!
