//! Tunable constants of the core.

use vstd::prelude::*;

verus! {

/// The externally overridable configuration: heartbeat cadence, liveness
/// timeout, probe duration and probe payload size.
#[derive(Clone, Copy, Debug)]
pub struct CoreConfig {
    /// Period of the scheduler tick, in milliseconds.
    pub heartbeat_interval_ms: u64,
    /// A session times out when no liveness signal arrived for strictly more
    /// than this many milliseconds.
    pub timeout_threshold_ms: u64,
    /// Wall-clock length of one throughput probe, in milliseconds.
    pub probe_duration_ms: u64,
    /// Size in bytes of the payload a probe sends repeatedly.
    pub probe_payload_len: u64,
}

/// The reference configuration: 1 s heartbeat, 2 s timeout, 1 s probes of
/// 1024-byte payloads.
pub open spec fn reference_config() -> CoreConfig {
    CoreConfig {
        heartbeat_interval_ms: 1000,
        timeout_threshold_ms: 2000,
        probe_duration_ms: 1000,
        probe_payload_len: 1024,
    }
}

impl Default for CoreConfig {
    /// The reference configuration.
    fn default() -> (c: Self)
        ensures
            c == reference_config(),
    {
        CoreConfig {
            heartbeat_interval_ms: 1000,
            timeout_threshold_ms: 2000,
            probe_duration_ms: 1000,
            probe_payload_len: 1024,
        }
    }
}

} // verus!
