//! The frame loop of one WebSocket session, as a state machine: what
//! to do with each inbound frame, and when the liveness deadline has
//! passed.
use vstd::prelude::*;

verus! {

/// Why a session ended in failure.
#[derive(PartialEq, Eq, Structural, Clone, Copy, Debug)]
pub enum SessionError {
    /// The peer sent a close frame, or the pong path shut down.
    ConnectionClosed,
    /// Reading from the socket failed.
    Transport,
    /// Nothing kept the connection alive for over thirty seconds.
    PingTimeout,
}

/// One thing the frame loop can observe: a frame read off the socket,
/// the end or failure of the stream, the closure of one of the two
/// channels beside it, or a tick of the liveness timer.
pub enum SessionEvent {
    /// A text frame, carrying the payload text.
    Text(String),
    /// A binary or other non-text data frame.
    Binary,
    /// A ping frame from the peer, carrying its payload.
    Ping(Vec<u8>),
    /// A pong frame from the peer.
    Pong,
    /// A close frame from the peer.
    CloseFrame,
    /// The socket read failed.
    TransportError,
    /// The socket stream ended without a close frame.
    StreamEnd,
    /// The consumer closed the outbound frame channel.
    OutChannelClosed,
    /// The pong writer is gone and ping replies cannot be queued.
    PongSinkClosed,
    /// The liveness timer fired.
    Tick,
}

/// What the frame loop must do in reaction to an event.
pub enum SessionAction {
    /// Emit the text, stamped with its receipt time, to the consumer.
    Emit(String),
    /// Queue a pong reply carrying the ping's own payload.
    QueuePong(Vec<u8>),
    /// Nothing.
    Ignore,
    /// Leave the loop as a normal termination.
    ExitOk,
    /// Leave the loop with the given error, for the supervisor.
    ExitErr(SessionError),
}

/// The per-connection state: when the connection last showed life.
pub struct SessionState {
    pub last_activity_ms: i64,
}

/// The reaction the frame loop owes to `event` at instant `now_ms`,
/// and the last-activity instant it holds afterwards.
pub open spec fn session_decision(last_activity_ms: i64, event: SessionEvent, now_ms: i64)
    -> (i64, SessionAction) {
    match event {
        SessionEvent::Text(text) => (now_ms, SessionAction::Emit(text)),
        SessionEvent::Binary => (last_activity_ms, SessionAction::Ignore),
        SessionEvent::Ping(payload) => (now_ms, SessionAction::QueuePong(payload)),
        SessionEvent::Pong => (now_ms, SessionAction::Ignore),
        SessionEvent::CloseFrame => (
            last_activity_ms,
            SessionAction::ExitErr(SessionError::ConnectionClosed),
        ),
        SessionEvent::TransportError => (
            last_activity_ms,
            SessionAction::ExitErr(SessionError::Transport),
        ),
        SessionEvent::StreamEnd => (last_activity_ms, SessionAction::ExitOk),
        SessionEvent::OutChannelClosed => (last_activity_ms, SessionAction::ExitOk),
        SessionEvent::PongSinkClosed => (
            last_activity_ms,
            SessionAction::ExitErr(SessionError::ConnectionClosed),
        ),
        SessionEvent::Tick => {
            if now_ms - last_activity_ms > 30_000 {
                (last_activity_ms, SessionAction::ExitErr(SessionError::PingTimeout))
            } else {
                (last_activity_ms, SessionAction::Ignore)
            }
        },
    }
}

impl SessionState {
    /// A session that just connected at `now_ms` counts the connection
    /// itself as activity.
    pub fn start(now_ms: i64) -> (r: SessionState)
        ensures
            r.last_activity_ms == now_ms,
    {
        SessionState { last_activity_ms: now_ms }
    }

    /// Reacts to one event of the frame loop: text frames are emitted
    /// and count as activity, pings are answered with their own
    /// payload, pongs only count as
    /// activity, close frames and transport failures end the session
    /// for the supervisor, channel closure ends it normally, and a
    /// timer tick ends it iff the liveness deadline has passed.
    pub fn step(&mut self, event: SessionEvent, now_ms: i64) -> (r: SessionAction)
        requires
            0 <= old(self).last_activity_ms <= now_ms,
        ensures
            (final(self).last_activity_ms, r)
                == session_decision(old(self).last_activity_ms, event, now_ms),
    {
        match event {
            SessionEvent::Text(text) => {
                self.last_activity_ms = now_ms;
                SessionAction::Emit(text)
            },
            SessionEvent::Binary => SessionAction::Ignore,
            SessionEvent::Ping(payload) => {
                self.last_activity_ms = now_ms;
                SessionAction::QueuePong(payload)
            },
            SessionEvent::Pong => {
                self.last_activity_ms = now_ms;
                SessionAction::Ignore
            },
            SessionEvent::CloseFrame => SessionAction::ExitErr(SessionError::ConnectionClosed),
            SessionEvent::TransportError => SessionAction::ExitErr(SessionError::Transport),
            SessionEvent::StreamEnd => SessionAction::ExitOk,
            SessionEvent::OutChannelClosed => SessionAction::ExitOk,
            SessionEvent::PongSinkClosed => SessionAction::ExitErr(SessionError::ConnectionClosed),
            SessionEvent::Tick => {
                if now_ms - self.last_activity_ms > 30_000 {
                    SessionAction::ExitErr(SessionError::PingTimeout)
                } else {
                    SessionAction::Ignore
                }
            },
        }
    }
}

} // verus!
