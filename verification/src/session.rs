use vstd::prelude::*;

use crate::errors::RecognizeError;
use crate::jsonout::{segments_json, segments_to_json};
use crate::segments::RecognizeResponse;

verus! {

/// How often the liveness timer fires, in milliseconds.
pub const HEARTBEAT_INTERVAL_MS: u64 = 5000;

/// How long a session may go without a ping or pong before it is closed,
/// in milliseconds.
pub const CLIENT_TIMEOUT_MS: u64 = 10000;

#[derive(Clone, Copy, PartialEq, Eq, Structural, Debug)]
pub enum SessionPhase {
    Active,
    Closing,
    Closed,
}

/// Why a connection was closed, echoed back on a close frame.
pub struct CloseReason {
    pub code: u16,
    pub description: Option<String>,
}

/// One inbound frame of the duplex connection.
pub enum InboundFrame {
    Ping(Vec<u8>),
    Pong(Vec<u8>),
    Text(String),
    Binary(Vec<u8>),
    Close(Option<CloseReason>),
    Unsupported,
}

/// What the connection layer is told to do after a step.
pub enum SessionAction {
    SendPong(Vec<u8>),
    SendText(String),
    RunRecognition(Vec<u8>),
    SendPing,
    CloseConnection(Option<CloseReason>),
}

/// The payload-free shape of a frame, which is all the liveness state
/// depends on.
#[derive(Clone, Copy, PartialEq, Eq, Structural, Debug)]
pub enum FrameKind {
    Ping,
    Pong,
    Text,
    Binary,
    Close,
    Unsupported,
}

pub open spec fn kind_of(f: InboundFrame) -> FrameKind {
    match f {
        InboundFrame::Ping(_) => FrameKind::Ping,
        InboundFrame::Pong(_) => FrameKind::Pong,
        InboundFrame::Text(_) => FrameKind::Text,
        InboundFrame::Binary(_) => FrameKind::Binary,
        InboundFrame::Close(_) => FrameKind::Close,
        InboundFrame::Unsupported => FrameKind::Unsupported,
    }
}

/// Whether a liveness signal last seen at `last` has gone stale by `now`.
pub open spec fn timed_out(last: u64, now: u64) -> bool {
    now - last > CLIENT_TIMEOUT_MS
}

/// One per-connection session: the phase it is in and when the last
/// liveness signal (ping or pong) was seen, in milliseconds of a monotone
/// clock.
pub struct StreamingSession {
    pub phase: SessionPhase,
    pub last_heartbeat: u64,
}

/// What one inbound frame does to the session state: ping and pong record
/// liveness, text and binary leave it unchanged, close begins the shutdown,
/// and an unsupported frame ends the session at once.
pub open spec fn step_frame(s: StreamingSession, k: FrameKind, now: u64) -> StreamingSession {
    match k {
        FrameKind::Ping => StreamingSession { phase: s.phase, last_heartbeat: now },
        FrameKind::Pong => StreamingSession { phase: s.phase, last_heartbeat: now },
        FrameKind::Text => s,
        FrameKind::Binary => s,
        FrameKind::Close => StreamingSession {
            phase: SessionPhase::Closing,
            last_heartbeat: s.last_heartbeat,
        },
        FrameKind::Unsupported => StreamingSession {
            phase: SessionPhase::Closed,
            last_heartbeat: s.last_heartbeat,
        },
    }
}

/// What one timer tick does: a stale session begins the shutdown, a fresh
/// one is left as it was (and is pinged).
pub open spec fn step_tick(s: StreamingSession, now: u64) -> StreamingSession {
    if timed_out(s.last_heartbeat, now) {
        StreamingSession { phase: SessionPhase::Closing, last_heartbeat: s.last_heartbeat }
    } else {
        s
    }
}

impl StreamingSession {
    pub fn new(now: u64) -> (s: Self)
        ensures
            s.phase == SessionPhase::Active,
            s.last_heartbeat == now,
    {
        StreamingSession { phase: SessionPhase::Active, last_heartbeat: now }
    }

    /// Handles one inbound frame while the session is active: ping is
    /// answered with a pong carrying the same payload, pong only records
    /// liveness, text is echoed unchanged, binary is handed on as one PCM
    /// chunk to recognize, close echoes the reason and begins the shutdown,
    /// and any other frame ends the session with nothing sent.
    pub fn handle_frame(&mut self, frame: InboundFrame, now: u64) -> (action: Option<
        SessionAction,
    >)
        requires
            old(self).phase == SessionPhase::Active,
        ensures
            *final(self) == step_frame(*old(self), kind_of(frame), now),
            frame matches InboundFrame::Ping(p) ==> action == Some(SessionAction::SendPong(p)),
            frame matches InboundFrame::Pong(_) ==> action is None,
            frame matches InboundFrame::Text(t) ==> action == Some(SessionAction::SendText(t)),
            frame matches InboundFrame::Binary(b) ==> action == Some(
                SessionAction::RunRecognition(b),
            ),
            frame matches InboundFrame::Close(r) ==> action == Some(
                SessionAction::CloseConnection(r),
            ),
            frame is Unsupported ==> action is None,
    {
        match frame {
            InboundFrame::Ping(p) => {
                self.last_heartbeat = now;
                Some(SessionAction::SendPong(p))
            },
            InboundFrame::Pong(_) => {
                self.last_heartbeat = now;
                None
            },
            InboundFrame::Text(t) => Some(SessionAction::SendText(t)),
            InboundFrame::Binary(b) => Some(SessionAction::RunRecognition(b)),
            InboundFrame::Close(r) => {
                self.phase = SessionPhase::Closing;
                Some(SessionAction::CloseConnection(r))
            },
            InboundFrame::Unsupported => {
                self.phase = SessionPhase::Closed;
                None
            },
        }
    }

    /// Handles one firing of the liveness timer: if no ping or pong has
    /// been seen for longer than the timeout, the session begins the
    /// shutdown and the connection is closed; otherwise a ping goes out.
    pub fn handle_tick(&mut self, now: u64) -> (action: SessionAction)
        requires
            old(self).phase == SessionPhase::Active,
        ensures
            *final(self) == step_tick(*old(self), now),
            timed_out(old(self).last_heartbeat, now) ==> (final(self).phase == SessionPhase::Closing
                && action == SessionAction::CloseConnection(None::<CloseReason>)),
            !timed_out(old(self).last_heartbeat, now) ==> (*final(self) == *old(self) && action
                == SessionAction::SendPing),
    {
        if now > self.last_heartbeat && now - self.last_heartbeat > CLIENT_TIMEOUT_MS {
            self.phase = SessionPhase::Closing;
            SessionAction::CloseConnection(None)
        } else {
            SessionAction::SendPing
        }
    }

    /// Ends the shutdown: the connection is gone, the session is closed
    /// for good.
    pub fn finish_close(&mut self)
        requires
            old(self).phase == SessionPhase::Closing,
        ensures
            final(self).phase == SessionPhase::Closed,
            final(self).last_heartbeat == old(self).last_heartbeat,
    {
        self.phase = SessionPhase::Closed;
    }

    /// The text frame answering one recognized chunk: the serialized
    /// segments on success, the error's description on failure. Either way
    /// the session itself is untouched and the connection stays open.
    pub fn recognition_reply(&self, outcome: &Result<Vec<RecognizeResponse>, RecognizeError>) -> (
        action: SessionAction)
        ensures
            outcome matches Ok(segs) ==> (action matches SessionAction::SendText(t) && t@
                == segments_json(segs@)),
            outcome matches Err(e) ==> (action matches SessionAction::SendText(t) && t@
                == e.spec_message()),
    {
        match outcome {
            Ok(segs) => SessionAction::SendText(segments_to_json(segs)),
            Err(e) => SessionAction::SendText(e.message()),
        }
    }
}

/// Ghost form of what drives a session: inbound frames and timer ticks,
/// each at a time on the connection's clock.
pub enum SessionEventKind {
    Frame(FrameKind, u64),
    Tick(u64),
}

pub open spec fn step_event(s: StreamingSession, e: SessionEventKind) -> StreamingSession {
    match e {
        SessionEventKind::Frame(k, at) => step_frame(s, k, at),
        SessionEventKind::Tick(at) => step_tick(s, at),
    }
}

pub open spec fn run_session(s: StreamingSession, events: Seq<SessionEventKind>) -> StreamingSession
    decreases events.len(),
{
    if events.len() == 0 {
        s
    } else {
        run_session(step_event(s, events[0]), events.drop_first())
    }
}

/// An event that does not itself ask for the session to end.
pub open spec fn keeps_connection(e: SessionEventKind) -> bool {
    match e {
        SessionEventKind::Frame(k, _) => k != FrameKind::Close && k != FrameKind::Unsupported,
        SessionEventKind::Tick(_) => true,
    }
}

/// Every tick in the run comes while the last liveness signal is still
/// fresh, judged against the state the session actually has by then.
pub open spec fn ticks_are_prompt(s: StreamingSession, events: Seq<SessionEventKind>) -> bool
    decreases events.len(),
{
    if events.len() == 0 {
        true
    } else {
        let prompt_now = match events[0] {
            SessionEventKind::Tick(at) => !timed_out(s.last_heartbeat, at),
            SessionEventKind::Frame(_, _) => true,
        };
        prompt_now && ticks_are_prompt(step_event(s, events[0]), events.drop_first())
    }
}

/// A session that keeps hearing pings or pongs often enough stays active
/// for as long as that holds, whatever else arrives: no run of ordinary
/// frames and prompt ticks ever leaves the active phase. A pong every four
/// seconds keeps every tick prompt, so such a session stays active
/// indefinitely.
pub proof fn lemma_prompt_liveness_keeps_active(
    s: StreamingSession,
    events: Seq<SessionEventKind>,
)
    requires
        s.phase == SessionPhase::Active,
        forall|i: int| 0 <= i < events.len() ==> keeps_connection(#[trigger] events[i]),
        ticks_are_prompt(s, events),
    ensures
        run_session(s, events).phase == SessionPhase::Active,
    decreases events.len(),
{
    if events.len() > 0 {
        let s1 = step_event(s, events[0]);
        assert(s1.phase == SessionPhase::Active);
        assert(forall|i: int|
            0 <= i < events.drop_first().len() ==> keeps_connection(
                #[trigger] events.drop_first()[i],
            ));
        lemma_prompt_liveness_keeps_active(s1, events.drop_first());
    }
}

/// A session that has heard nothing for longer than the timeout is closed
/// by the next tick: the tick moves it out of the active phase for good.
pub proof fn lemma_late_tick_closes(s: StreamingSession, now: u64)
    requires
        s.phase == SessionPhase::Active,
        now - s.last_heartbeat > CLIENT_TIMEOUT_MS,
    ensures
        step_tick(s, now).phase == SessionPhase::Closing,
{
}

} // verus!
