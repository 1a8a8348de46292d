//! Wall-clock access for the gesture detectors.

use vstd::prelude::*;

verus! {

/// Milliseconds since the Unix epoch, read with `std::time::SystemTime::now`
/// (0 when the clock reads before the epoch). Nothing is claimed of the
/// value: it depends on the machine's clock, which may even step backwards.
#[verifier::external_body]
pub(crate) fn now_ms() -> u128 {
    std::time::SystemTime::now()
        .duration_since(std::time::UNIX_EPOCH)
        .map(|d| d.as_millis())
        .unwrap_or(0)
}

} // verus!
