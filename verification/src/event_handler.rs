//! When the input thread sends a tick.

use vstd::prelude::*;

verus! {

/// How long one wait for a key lasts, in milliseconds.
pub const POLL_TIME_MS: u64 = 16;

/// How long the client has to be idle before a tick is sent, in milliseconds.
pub const TICK_INTERVAL_MS: u128 = 500;

/// Whether a tick is due: the last tick and the last key press are both at
/// least a tick interval ago, so that no tick is sent while keys are typed.
pub fn tick_due(since_tick_ms: u128, since_key_ms: u128) -> (due: bool)
    ensures
        due == (since_tick_ms >= TICK_INTERVAL_MS && since_key_ms >= TICK_INTERVAL_MS),
{
    since_tick_ms >= TICK_INTERVAL_MS && since_key_ms >= TICK_INTERVAL_MS
}

} // verus!
