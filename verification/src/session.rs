//! The per-connection session: identity, liveness timestamp and lifecycle
//! state, driven by the inbound frames of the connection.

use vstd::prelude::*;

verus! {

/// Lifecycle of a session.
///
/// `Active` accepts liveness signals and close requests; `Closing` means a
/// close acknowledgment is on its way out and the session waits for the
/// channel to confirm closure; `Closed` is terminal and every further
/// operation is a no-op.
#[derive(Clone, Copy, PartialEq, Eq, Structural, Debug)]
pub enum SessionState {
    Active,
    Closing,
    Closed,
}

/// One decoded inbound frame.
pub enum InboundFrame {
    /// A keepalive request carrying a payload the peer expects echoed back.
    Ping(Vec<u8>),
    /// The peer's answer to a keepalive sent earlier.
    Pong(Vec<u8>),
    /// An application text frame, echoed back as-is.
    Text(String),
    /// The peer asks to end the session, optionally with a reason code.
    CloseRequest(Option<u16>),
    /// Anything the framing layer could not decode: a protocol violation.
    Malformed,
}

/// What the caller must perform on the session's outward channel after a
/// frame was handled.
#[derive(Debug, PartialEq)]
pub enum FrameAction {
    /// Answer a ping with a pong carrying the same payload.
    SendPong(Vec<u8>),
    /// Echo a text frame back to the peer.
    EchoText(String),
    /// Acknowledge a close request, carrying its reason code.
    SendCloseAck(Option<u16>),
    /// Nothing to send.
    NoAction,
}

impl InboundFrame {
    /// The frames that prove the peer is still responsive: ping, pong and
    /// text all refresh the liveness timestamp.
    pub open spec fn is_liveness_signal(&self) -> bool {
        match *self {
            InboundFrame::Ping(_) => true,
            InboundFrame::Pong(_) => true,
            InboundFrame::Text(_) => true,
            InboundFrame::CloseRequest(_) => false,
            InboundFrame::Malformed => false,
        }
    }
}

/// The state a server keeps for one client connection.
pub struct ConnectionSession {
    /// Opaque connection identity, fixed for the session's lifetime.
    pub id: u64,
    /// Time of the most recent liveness signal, in monotonic milliseconds.
    pub last_heartbeat: u64,
    /// Lifecycle state.
    pub state: SessionState,
}

/// What a liveness signal handled at time `t` does to a session: an `Active`
/// session takes `t` as its new liveness timestamp, any other session is left
/// alone.
pub open spec fn signal_spec(s: ConnectionSession, t: u64) -> ConnectionSession {
    if s.state == SessionState::Active {
        ConnectionSession { last_heartbeat: t, ..s }
    } else {
        s
    }
}

impl ConnectionSession {
    /// A fresh session: `Active`, with its liveness timestamp set to the
    /// creation time.
    pub fn new(id: u64, now: u64) -> (s: Self)
        ensures
            s.id == id,
            s.last_heartbeat == now,
            s.state == SessionState::Active,
    {
        ConnectionSession { id, last_heartbeat: now, state: SessionState::Active }
    }

    /// The inbound handler's dispatch, at time `now` of the monotonic clock.
    ///
    /// While `Active`: ping, pong and text refresh the liveness timestamp,
    /// ping is answered with a pong, text is echoed; a close request turns the
    /// session `Closing` and is acknowledged; a malformed frame closes the
    /// session outright. Once the session left `Active`, every frame is a
    /// no-op.
    pub fn handle_frame(&mut self, frame: InboundFrame, now: u64) -> (action: FrameAction)
        requires
            old(self).last_heartbeat <= now,
        ensures
            final(self).id == old(self).id,
            old(self).last_heartbeat <= final(self).last_heartbeat,
            frame.is_liveness_signal() ==> *final(self) == signal_spec(*old(self), now),
            old(self).state != SessionState::Active ==> *final(self) == *old(self)
                && action matches FrameAction::NoAction,
            old(self).state == SessionState::Active ==> {
                &&& (frame matches InboundFrame::Ping(p) ==> final(self).state
                    == SessionState::Active && final(self).last_heartbeat == now && (
                action matches FrameAction::SendPong(q) && q@ == p@))
                &&& (frame matches InboundFrame::Pong(_) ==> final(self).state
                    == SessionState::Active && final(self).last_heartbeat == now && (
                action matches FrameAction::NoAction))
                &&& (frame matches InboundFrame::Text(t) ==> final(self).state
                    == SessionState::Active && final(self).last_heartbeat == now && (
                action matches FrameAction::EchoText(u) && u@ == t@))
                &&& (frame matches InboundFrame::CloseRequest(r) ==> final(self).state
                    == SessionState::Closing && final(self).last_heartbeat == old(
                    self,
                ).last_heartbeat && (action matches FrameAction::SendCloseAck(c) && c == r))
                &&& (frame matches InboundFrame::Malformed ==> final(self).state
                    == SessionState::Closed && final(self).last_heartbeat == old(
                    self,
                ).last_heartbeat && (action matches FrameAction::NoAction))
            },
    {
        match self.state {
            SessionState::Active => match frame {
                InboundFrame::Ping(p) => {
                    self.last_heartbeat = now;
                    FrameAction::SendPong(p)
                },
                InboundFrame::Pong(_) => {
                    self.last_heartbeat = now;
                    FrameAction::NoAction
                },
                InboundFrame::Text(t) => {
                    self.last_heartbeat = now;
                    FrameAction::EchoText(t)
                },
                InboundFrame::CloseRequest(r) => {
                    self.state = SessionState::Closing;
                    FrameAction::SendCloseAck(r)
                },
                InboundFrame::Malformed => {
                    self.state = SessionState::Closed;
                    FrameAction::NoAction
                },
            },
            _ => FrameAction::NoAction,
        }
    }

    /// The channel confirmed closure: a `Closing` session becomes `Closed`.
    /// In any other state nothing changes.
    pub fn on_close_confirmed(&mut self)
        ensures
            final(self).id == old(self).id,
            final(self).last_heartbeat == old(self).last_heartbeat,
            old(self).state == SessionState::Closing ==> final(self).state == SessionState::Closed,
            old(self).state != SessionState::Closing ==> final(self).state == old(self).state,
    {
        match self.state {
            SessionState::Closing => {
                self.state = SessionState::Closed;
            },
            _ => {},
        }
    }

    /// The scheduler's read of the liveness timestamp: exactly the value the
    /// inbound handler last wrote, never any other.
    pub fn read_last_heartbeat(&self) -> (t: u64)
        ensures
            t == self.last_heartbeat,
    {
        self.last_heartbeat
    }
}

} // verus!
