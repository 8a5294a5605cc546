//! Per-connection liveness and network-health core.
//!
//! A server keeps one session per client connection. Inbound frames feed the
//! session state machine and refresh its liveness timestamp; a periodic
//! scheduler tick checks that timestamp against a timeout threshold and, while
//! the client is alive, launches a throughput probe over each transport kind.
//! The probe's result is rendered into a status message and delivered back on
//! the session's outward channel.
//!
//! The core works on plain values: timestamps are milliseconds of a monotonic
//! clock, throughput rates are hundredths of a megabyte per second. All socket
//! work, timers and threads stay with the caller, which drives these state
//! machines and performs the actions they return.

pub mod broadcast;
pub mod config;
pub mod probe;
pub mod scheduler;
pub mod session;
pub mod timing;
