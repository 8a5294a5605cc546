//! Monotonic-time arithmetic shared by the scheduler and the prober.

use vstd::prelude::*;

verus! {

/// Milliseconds elapsed between two readings of a monotonic clock, saturating
/// at zero when the readings arrive out of order.
pub open spec fn elapsed_spec(now: u64, since: u64) -> u64 {
    if since <= now {
        (now - since) as u64
    } else {
        0
    }
}

/// Elapsed time since `since`, as the scheduler and the prober measure it.
pub fn elapsed_ms(now: u64, since: u64) -> (e: u64)
    ensures
        e == elapsed_spec(now, since),
{
    if since <= now {
        now - since
    } else {
        0
    }
}

/// A liveness deadline has passed when the time since the last liveness
/// signal strictly exceeds the timeout threshold.
pub open spec fn timed_out_spec(now: u64, last_heartbeat: u64, threshold_ms: u64) -> bool {
    elapsed_spec(now, last_heartbeat) > threshold_ms
}

/// The timeout test the scheduler applies on every tick.
pub fn timed_out(now: u64, last_heartbeat: u64, threshold_ms: u64) -> (b: bool)
    ensures
        b == timed_out_spec(now, last_heartbeat, threshold_ms),
{
    elapsed_ms(now, last_heartbeat) > threshold_ms
}

} // verus!
