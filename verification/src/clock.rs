//! Monotonic-enough wall clock samples for the timestamp store.

use std::time::SystemTime;
use std::time::UNIX_EPOCH;
use vstd::prelude::*;

verus! {

/// Relies on `std::time::SystemTime::now` (with `duration_since` and
/// `as_micros` on the resulting `std::time::Duration`): wall-clock
/// microseconds since the Unix epoch, truncated to 64 bits, or 0 if the
/// clock reads before the epoch. The value depends on the machine's
/// clock, so nothing is assumed of it: callers treat it as an arbitrary
/// clock sample.
#[verifier::external_body]
pub(crate) fn get_now_truncated() -> u64 {
    SystemTime::now().duration_since(UNIX_EPOCH).unwrap_or_default().as_micros() as u64
}

} // verus!
