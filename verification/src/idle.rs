//! Session idle time from the tick counter and the last-input tick.
//!
//! Synthetic input (an automation agent) updates the last-input tick like
//! physical input, so auto blackout stays out of the way while it works.

use vstd::prelude::*;

verus! {

/// Milliseconds between the last input tick and now on the wrapping 32-bit
/// tick counter.
pub open spec fn idle_ms_spec(now_tick: u32, last_input: Option<u32>) -> u64 {
    match last_input {
        Some(t) => (if now_tick >= t { now_tick - t } else { now_tick + 0x1_0000_0000 - t }) as u64,
        None => 0,
    }
}

/// Milliseconds since the last keyboard/mouse input, from the current tick
/// and the last-input tick (`None` when it could not be read: 0).
pub fn idle_ms(now_tick: u32, last_input: Option<u32>) -> (r: u64)
    ensures
        r == idle_ms_spec(now_tick, last_input),
{
    match last_input {
        Some(t) => {
            if now_tick >= t {
                (now_tick - t) as u64
            } else {
                (now_tick as u64 + 0x1_0000_0000) - t as u64
            }
        },
        None => 0,
    }
}

} // verus!
