//! The heartbeat scheduler's per-tick decision, and the liveness guarantee it
//! gives a client that keeps signalling in time.

use vstd::prelude::*;
use crate::session::{ConnectionSession, SessionState, signal_spec};
use crate::timing::{timed_out, timed_out_spec};

verus! {

/// What the caller must do after one scheduler tick.
#[derive(Clone, Copy, PartialEq, Eq, Structural, Debug)]
pub enum TickAction {
    /// The session already left `Active`: schedule no further ticks.
    Stop,
    /// The liveness timeout passed: close the session's channel and schedule
    /// no further ticks. A normal liveness-driven shutdown, not an error.
    CloseTimeout,
    /// The client is alive: send a keepalive ping and launch a detached
    /// throughput-probe job, then keep ticking.
    ProbeAndPing,
}

/// The tick transition: an `Active` session whose liveness timestamp is
/// strictly older than the timeout threshold turns `Closing`; every other
/// session is left alone.
pub open spec fn tick_spec(s: ConnectionSession, now: u64, threshold_ms: u64) -> ConnectionSession {
    if s.state == SessionState::Active && timed_out_spec(now, s.last_heartbeat, threshold_ms) {
        ConnectionSession { state: SessionState::Closing, ..s }
    } else {
        s
    }
}

impl ConnectionSession {
    /// One scheduler tick at time `now`.
    ///
    /// Exactly when strictly more than `threshold_ms` passed since the last
    /// liveness signal, the session is asked to close; otherwise it stays as
    /// it was and the caller pings the client and launches a probe job. The
    /// ping itself never refreshes the liveness timestamp — only the client's
    /// answer does, through the inbound handler.
    pub fn on_scheduler_tick(&mut self, now: u64, threshold_ms: u64) -> (action: TickAction)
        ensures
            *final(self) == tick_spec(*old(self), now, threshold_ms),
            action == (if old(self).state != SessionState::Active {
                TickAction::Stop
            } else if timed_out_spec(now, old(self).last_heartbeat, threshold_ms) {
                TickAction::CloseTimeout
            } else {
                TickAction::ProbeAndPing
            }),
    {
        match self.state {
            SessionState::Active => {
                if timed_out(now, self.last_heartbeat, threshold_ms) {
                    self.state = SessionState::Closing;
                    TickAction::CloseTimeout
                } else {
                    TickAction::ProbeAndPing
                }
            },
            _ => TickAction::Stop,
        }
    }
}

/// One entry of a session's liveness history: a liveness signal handled by
/// the inbound handler, or a scheduler tick, each at a time of the monotonic
/// clock.
pub enum LivenessEvent {
    /// A liveness signal (ping, pong or text) handled at the given time.
    Signal(u64),
    /// A scheduler tick at the given time.
    Tick(u64),
}

/// The time at which an event happened.
pub open spec fn event_time(e: LivenessEvent) -> u64 {
    match e {
        LivenessEvent::Signal(t) => t,
        LivenessEvent::Tick(t) => t,
    }
}

/// What one event does to a session, as the contracts of `handle_frame` and
/// `on_scheduler_tick` state it.
pub open spec fn event_spec(s: ConnectionSession, e: LivenessEvent, threshold_ms: u64) -> ConnectionSession {
    match e {
        LivenessEvent::Signal(t) => signal_spec(s, t),
        LivenessEvent::Tick(t) => tick_spec(s, t, threshold_ms),
    }
}

/// The session after a whole history of events, applied in order.
pub open spec fn run_spec(
    s: ConnectionSession,
    events: Seq<LivenessEvent>,
    threshold_ms: u64,
) -> ConnectionSession
    decreases events.len(),
{
    if events.len() == 0 {
        s
    } else {
        run_spec(event_spec(s, events[0], threshold_ms), events.drop_first(), threshold_ms)
    }
}

/// The liveness baseline after the first `i` events: the time of the latest
/// signal among them, or `lh0` where there is none.
pub open spec fn latest_signal(lh0: u64, events: Seq<LivenessEvent>, i: int) -> u64
    decreases i,
{
    if i <= 0 {
        lh0
    } else {
        match events[i - 1] {
            LivenessEvent::Signal(t) => t,
            LivenessEvent::Tick(_) => latest_signal(lh0, events, i - 1),
        }
    }
}

/// Signals come strictly more often than the timeout threshold: every tick
/// falls within `threshold_ms` of the latest signal before it (or of the
/// baseline `lh0` while no signal arrived yet).
pub open spec fn ticks_covered(lh0: u64, events: Seq<LivenessEvent>, threshold_ms: u64) -> bool {
    forall|i: int|
        0 <= i < events.len() ==> ((#[trigger] events[i]) matches LivenessEvent::Tick(t)
            ==> t <= latest_signal(lh0, events, i) + threshold_ms)
}

/// Dropping the first event shifts the baseline: the latest signal among the
/// first `j` events of the tail, measured from the baseline the head leaves
/// behind, is the latest signal among the first `j + 1` events of the whole
/// history.
proof fn lemma_latest_signal_shift(lh0: u64, events: Seq<LivenessEvent>, j: int)
    requires
        events.len() > 0,
        0 <= j <= events.len() - 1,
    ensures
        latest_signal(latest_signal(lh0, events, 1), events.drop_first(), j) == latest_signal(
            lh0,
            events,
            j + 1,
        ),
    decreases j,
{
    if j > 0 {
        assert(events.drop_first()[j - 1] == events[j]);
        match events[j] {
            LivenessEvent::Signal(_) => {},
            LivenessEvent::Tick(_) => {
                lemma_latest_signal_shift(lh0, events, j - 1);
            },
        }
    }
}

/// Repeated liveness signals delivered strictly more often than the timeout
/// threshold keep a session `Active` indefinitely: after any history of
/// signals and ticks in which every tick comes within the threshold of the
/// latest signal, the session is still `Active` and its liveness timestamp is
/// the latest signal time.
pub proof fn lemma_no_false_timeout(
    s: ConnectionSession,
    events: Seq<LivenessEvent>,
    threshold_ms: u64,
)
    requires
        s.state == SessionState::Active,
        ticks_covered(s.last_heartbeat, events, threshold_ms),
    ensures
        run_spec(s, events, threshold_ms).state == SessionState::Active,
        run_spec(s, events, threshold_ms).last_heartbeat == latest_signal(
            s.last_heartbeat,
            events,
            events.len() as int,
        ),
    decreases events.len(),
{
    if events.len() > 0 {
        let s1 = event_spec(s, events[0], threshold_ms);
        let tail = events.drop_first();
        let lh1 = latest_signal(s.last_heartbeat, events, 1);
        match events[0] {
            LivenessEvent::Signal(t) => {
                assert(s1.last_heartbeat == t);
            },
            LivenessEvent::Tick(t) => {
                assert(t <= s.last_heartbeat + threshold_ms);
                assert(s1 == s);
            },
        }
        assert(s1.state == SessionState::Active);
        assert(s1.last_heartbeat == lh1);
        assert forall|i: int| 0 <= i < tail.len() implies ((#[trigger] tail[i]) matches
            LivenessEvent::Tick(t) ==> t <= latest_signal(lh1, tail, i) + threshold_ms) by {
            assert(tail[i] == events[i + 1]);
            lemma_latest_signal_shift(s.last_heartbeat, events, i);
            assert(events[i + 1] matches LivenessEvent::Tick(u) ==> u <= latest_signal(
                s.last_heartbeat,
                events,
                i + 1,
            ) + threshold_ms);
        }
        lemma_no_false_timeout(s1, tail, threshold_ms);
        lemma_latest_signal_shift(s.last_heartbeat, events, events.len() - 1);
    }
}

} // verus!
