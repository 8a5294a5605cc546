//! The throughput prober: a timed saturation send over one transport kind,
//! reported as an estimated rate.
//!
//! The caller owns the sockets and the clock; it drives one `ProbeState` per
//! transport kind through `should_continue` / `record_send_ok` /
//! `record_send_failure` and reads the rate off at the end. Rates are
//! hundredths of a megabyte per second, so the broadcast's two decimal places
//! are exact.

use vstd::prelude::*;
use vstd::arithmetic::div_mod::{
    lemma_div_is_ordered_by_denominator,
    lemma_div_of0,
    lemma_div_pos_is_pos,
    lemma_multiply_divide_lt,
};
use crate::timing::elapsed_spec;

verus! {

/// The two transport kinds a probe can exercise.
#[derive(Clone, Copy, PartialEq, Eq, Structural, Debug)]
pub enum TransportKind {
    /// The stream-oriented transport.
    Stream,
    /// The datagram-oriented transport.
    Datagram,
}

/// The measured rate in hundredths of MB/s: bytes divided by 1024², divided
/// by elapsed seconds, scaled by 100 and rounded down. No time passed means
/// no measurable rate: zero.
pub open spec fn rate_centi_mbps_spec(bytes_sent: u64, elapsed: u64) -> int {
    if elapsed == 0 {
        0
    } else {
        (bytes_sent * 100000) / (1048576 * elapsed)
    }
}

/// The rate for `bytes_sent` bytes over `elapsed` milliseconds, in hundredths
/// of MB/s.
pub fn rate_centi_mbps(bytes_sent: u64, elapsed: u64) -> (r: u64)
    ensures
        r == rate_centi_mbps_spec(bytes_sent, elapsed),
{
    if elapsed == 0 {
        return 0;
    }
    let num: u128 = (bytes_sent as u128) * 100000;
    let den: u128 = 1048576u128 * (elapsed as u128);
    let q: u128 = num / den;
    proof {
        lemma_div_is_ordered_by_denominator(num as int, 1048576, den as int);
        lemma_multiply_divide_lt(num as int, 0x10000000000000000, 1048576);
    }
    q as u64
}

/// Every measured rate is non-negative, whatever was recorded.
pub proof fn lemma_rate_nonnegative(bytes_sent: u64, elapsed: u64)
    ensures
        rate_centi_mbps_spec(bytes_sent, elapsed) >= 0,
{
    if elapsed != 0 {
        lemma_div_pos_is_pos(bytes_sent * 100000, 1048576 * elapsed);
    }
}

/// A probe that recorded no bytes — as after a send failure on the very
/// first attempt — reports a rate of exactly zero, for every elapsed time.
pub proof fn lemma_first_send_failure_rate_zero(p: ProbeState, now: u64)
    requires
        p.bytes_sent == 0,
    ensures
        rate_centi_mbps_spec(p.bytes_sent, elapsed_spec(now, p.started_at)) == 0,
{
    let elapsed = elapsed_spec(now, p.started_at);
    if elapsed != 0 {
        lemma_div_of0(1048576 * elapsed);
    }
}

/// One in-flight throughput measurement over a single transport kind.
#[derive(Clone, Copy, Debug)]
pub struct ProbeState {
    /// Which transport this probe exercises.
    pub kind: TransportKind,
    /// Bytes in the payload of every send.
    pub payload_len: u64,
    /// How long the saturation send is meant to run, in milliseconds.
    pub duration_ms: u64,
    /// When the probe began, in monotonic milliseconds.
    pub started_at: u64,
    /// Bytes successfully sent so far.
    pub bytes_sent: u64,
    /// A send failed: the probe stops early with a partial result.
    pub halted: bool,
}

impl ProbeState {
    /// A probe over `kind` begun at `now`: nothing sent yet, not halted.
    pub fn start(kind: TransportKind, payload_len: u64, duration_ms: u64, now: u64) -> (p: Self)
        ensures
            p.kind == kind,
            p.payload_len == payload_len,
            p.duration_ms == duration_ms,
            p.started_at == now,
            p.bytes_sent == 0,
            !p.halted,
    {
        ProbeState { kind, payload_len, duration_ms, started_at: now, bytes_sent: 0, halted: false }
    }

    /// The saturation loop's continuation test: keep sending while no send
    /// failed and the probe duration has not yet elapsed.
    pub fn should_continue(&self, now: u64) -> (b: bool)
        ensures
            b == (!self.halted && elapsed_spec(now, self.started_at) < self.duration_ms),
    {
        !self.halted && crate::timing::elapsed_ms(now, self.started_at) < self.duration_ms
    }

    /// One whole payload went out: account for it.
    pub fn record_send_ok(&mut self)
        requires
            old(self).bytes_sent + old(self).payload_len <= u64::MAX,
        ensures
            *final(self) == (ProbeState {
                bytes_sent: (old(self).bytes_sent + old(self).payload_len) as u64,
                ..*old(self)
            }),
    {
        self.bytes_sent = self.bytes_sent + self.payload_len;
    }

    /// A send failed: stop early and keep the partial count. A failure is a
    /// partial result, never an error.
    pub fn record_send_failure(&mut self)
        ensures
            *final(self) == (ProbeState { halted: true, ..*old(self) }),
    {
        self.halted = true;
    }

    /// The estimated rate at `now`, in hundredths of MB/s, from exactly the
    /// bytes recorded so far and the time since the probe began.
    pub fn measured_rate(&self, now: u64) -> (r: u64)
        ensures
            r == rate_centi_mbps_spec(self.bytes_sent, elapsed_spec(now, self.started_at)),
    {
        rate_centi_mbps(self.bytes_sent, crate::timing::elapsed_ms(now, self.started_at))
    }
}

/// The combined outcome of one probe cycle, immutable once produced.
pub struct ProbeResult {
    /// Stream-transport rate, in hundredths of MB/s.
    pub stream_rate_centi_mbps: u64,
    /// Datagram-transport rate, in hundredths of MB/s.
    pub datagram_rate_centi_mbps: u64,
    /// When the cycle's results were read off, in monotonic milliseconds.
    pub measured_at: u64,
}

impl ProbeResult {
    /// Reads the two finished measurements of one probe cycle off at `now`.
    pub fn combine(stream: &ProbeState, datagram: &ProbeState, now: u64) -> (res: Self)
        ensures
            res.stream_rate_centi_mbps == rate_centi_mbps_spec(
                stream.bytes_sent,
                elapsed_spec(now, stream.started_at),
            ),
            res.datagram_rate_centi_mbps == rate_centi_mbps_spec(
                datagram.bytes_sent,
                elapsed_spec(now, datagram.started_at),
            ),
            res.measured_at == now,
    {
        ProbeResult {
            stream_rate_centi_mbps: stream.measured_rate(now),
            datagram_rate_centi_mbps: datagram.measured_rate(now),
            measured_at: now,
        }
    }
}

} // verus!
