//! One connection from handshake to teardown. A session is told what
//! happened on its connection (a frame arrived, a command is due, the
//! keep-alive timer ticked, the outbound queue broke) and answers with what
//! to publish on the bus and what to put on the wire.
//!
//! A session ends when the peer sends a close frame, when no ping came for
//! longer than `close_after`, when the outbound queue fails, or when the
//! caller's `Exit` is taken up. Whatever ends it, one close frame goes to the
//! outbound queue, and only the last reason counts as the caller's doing.

use crate::json::{is_json, json_well_formed, utf8_text};
use crate::message::{
    inbound_view, option_view, CtrlView, EventMessage, EventView, Frame, FrameView,
    ProtocolAnomaly, WSClientCtrl, WSMessage, WSMessageView,
};
use crate::transform::{command_envelope, token_of, WSClientData, WSClientHeader};
use vstd::prelude::*;
use vstd::string::*;
use vstd::utf8::*;

verus! {

/// What the session loop does after an inbound message.
#[derive(Clone, Copy, Debug, PartialEq, Eq, Structural)]
pub enum LoopFlow {
    /// Leave the loop: the connection is over.
    Break,
    /// Go on.
    Continue,
    /// Go on, and take note that the peer is alive.
    Ping,
}

/// How the loop goes on after an inbound message. Only a close frame ends
/// it; what could not be decoded is skipped.
pub open spec fn stream_flow(message: Option<FrameView>) -> LoopFlow {
    match message {
        Some(FrameView::Close) => LoopFlow::Break,
        Some(FrameView::Ping) => LoopFlow::Ping,
        _ => LoopFlow::Continue,
    }
}

/// What an inbound message puts on the bus, if anything: the payload of a
/// text or binary frame, unchanged. A close frame ends the loop and puts
/// nothing on the bus.
pub open spec fn stream_event(message: Option<FrameView>) -> Option<EventView> {
    match message {
        Some(FrameView::Text(text)) => Some(EventView::Text(text)),
        Some(FrameView::Binary(bytes)) => Some(EventView::Binary(bytes)),
        _ => None,
    }
}

/// Classifies one inbound message: how the loop goes on, and the event to
/// publish, if any.
pub fn handle_stream_message(message: Result<Frame, ProtocolAnomaly>) -> (r: (
    LoopFlow,
    Option<EventMessage>,
))
    ensures
        r.0 == stream_flow(inbound_view(message)),
        option_view(r.1) == stream_event(inbound_view(message)),
{
    match message {
        Err(_) => (LoopFlow::Continue, None),
        Ok(Frame::Text(text)) => (LoopFlow::Continue, Some(EventMessage::Text(text))),
        Ok(Frame::Binary(bytes)) => (LoopFlow::Continue, Some(EventMessage::Binary(bytes))),
        Ok(Frame::Close) => (LoopFlow::Break, None),
        Ok(Frame::Ping) => (LoopFlow::Ping, None),
        Ok(_) => (LoopFlow::Continue, None),
    }
}

/// An inbound frame as a message for subscribers: text stays text and
/// bytes stay bytes, with the payload unchanged; a close frame becomes
/// `Close`; the rest yields nothing.
pub open spec fn decoded_message(frame: FrameView) -> Option<WSMessageView> {
    match frame {
        FrameView::Text(text) => Some(WSMessageView::Text(text)),
        FrameView::Binary(bytes) => Some(WSMessageView::Binary(bytes)),
        FrameView::Close => Some(WSMessageView::Close),
        _ => None,
    }
}

/// Turns an inbound frame into a message for subscribers.
pub fn handle_msg(msg: Frame) -> (r: Option<WSMessage>)
    ensures
        option_view(r) == decoded_message(msg@),
{
    match msg {
        Frame::Text(text) => Some(WSMessage::Text(text)),
        Frame::Binary(bytes) => Some(WSMessage::Binary(bytes)),
        Frame::Close => Some(WSMessage::Close()),
        _ => None,
    }
}

/// A message after a look at its payload: text that is JSON, and bytes
/// that are UTF-8 and JSON, become `JSON` with the JSON text; everything
/// else stays as it is.
pub open spec fn json_told_apart(message: WSMessageView) -> WSMessageView {
    match message {
        WSMessageView::Text(text) => if json_well_formed(text) {
            WSMessageView::JSON(text)
        } else {
            message
        },
        WSMessageView::Binary(bytes) => if valid_utf8(bytes) && json_well_formed(
            decode_utf8(bytes),
        ) {
            WSMessageView::JSON(decode_utf8(bytes))
        } else {
            message
        },
        _ => message,
    }
}

/// Tells JSON payloads apart from other payloads, for a subscriber that
/// wants to know.
pub fn tell_json_apart(message: WSMessage) -> (r: WSMessage)
    ensures
        r@ == json_told_apart(message@),
{
    match message {
        WSMessage::Text(text) => {
            if is_json(text.as_str()) {
                WSMessage::JSON(text)
            } else {
                WSMessage::Text(text)
            }
        },
        WSMessage::Binary(bytes) => {
            let json = match utf8_text(bytes.as_slice()) {
                Some(text) => if is_json(text) {
                    Some(String::from_str(text))
                } else {
                    None
                },
                None => None,
            };
            match json {
                Some(text) => WSMessage::JSON(text),
                None => WSMessage::Binary(bytes),
            }
        },
        other => other,
    }
}

/// The frame that a command puts on the wire, if any. `Exit` itself sends
/// nothing (the close frame belongs to the end of the session); a numbered
/// command whose payload is not JSON is dropped.
pub open spec fn ctrl_frame(ctrl: CtrlView, token: Option<Seq<char>>) -> Option<FrameView> {
    match ctrl {
        CtrlView::Exit => None,
        CtrlView::SendText(text) => Some(FrameView::Text(text)),
        CtrlView::SendBinary(bytes) => Some(FrameView::Binary(bytes)),
        CtrlView::Send(command, data) => if json_well_formed(data) {
            Some(FrameView::Text(command_envelope(command, token, data)))
        } else {
            None
        },
    }
}

/// Takes up one command: whether it ends the session, and the frame to
/// send, if any. `header` goes into the envelope of a numbered command.
pub fn handle_ctrl(ctrl: WSClientCtrl, header: &Option<WSClientHeader>) -> (r: (
    bool,
    Option<Frame>,
))
    ensures
        r.0 == (ctrl@ is Exit),
        option_view(r.1) == ctrl_frame(ctrl@, token_of(*header)),
{
    match ctrl {
        WSClientCtrl::Exit => (true, None),
        WSClientCtrl::SendText(text) => (false, Some(Frame::Text(text))),
        WSClientCtrl::SendBinary(bytes) => (false, Some(Frame::Binary(bytes))),
        WSClientCtrl::Send(pair) => {
            let (command, data) = pair;
            let own = match header {
                Some(h) => Some(h.clone()),
                None => None,
            };
            match WSClientData::new(command, data, own).to_json() {
                Ok(text) => (false, Some(Frame::Text(text))),
                Err(_) => (false, None),
            }
        },
    }
}

/// Whether the peer has been silent for too long: more than `close_after`
/// has passed since the last ping.
pub open spec fn keepalive_expired(last_ping: u64, now: u64, close_after: u64) -> bool {
    now - last_ping > close_after
}

/// Whether a session is still running.
#[derive(Clone, Copy, Debug, PartialEq, Eq, Structural)]
pub enum SessionStatus {
    Running,
    Ended { caller_exit: bool },
}

/// A session as a mathematical value. Times are milliseconds on the
/// shell's clock.
pub struct SessionView {
    pub close_after: u64,
    pub last_ping: u64,
    pub status: SessionStatus,
}

/// What happened on the connection.
#[derive(Debug, PartialEq, Eq)]
pub enum SessionEvent {
    /// The inbound side yielded a frame, or something it could not decode.
    Stream(Result<Frame, ProtocolAnomaly>),
    /// A command is due.
    Ctrl(WSClientCtrl),
    /// The keep-alive timer ticked.
    Tick,
    /// The outbound queue no longer takes frames.
    SendFailure,
}

pub enum SessionEventView {
    Stream(Option<FrameView>),
    Ctrl(CtrlView),
    Tick,
    SendFailure,
}

impl View for SessionEvent {
    type V = SessionEventView;

    open spec fn view(&self) -> SessionEventView {
        match self {
            SessionEvent::Stream(message) => SessionEventView::Stream(inbound_view(*message)),
            SessionEvent::Ctrl(ctrl) => SessionEventView::Ctrl(ctrl@),
            SessionEvent::Tick => SessionEventView::Tick,
            SessionEvent::SendFailure => SessionEventView::SendFailure,
        }
    }
}

/// What the session asks for.
#[derive(Debug, PartialEq, Eq)]
pub enum SessionEffect {
    /// Put this event on the bus.
    Publish(EventMessage),
    /// Put this frame on the outbound queue.
    Send(Frame),
}

pub enum EffectView {
    Publish(EventView),
    Send(FrameView),
}

impl View for SessionEffect {
    type V = EffectView;

    open spec fn view(&self) -> EffectView {
        match self {
            SessionEffect::Publish(event) => EffectView::Publish(event@),
            SessionEffect::Send(frame) => EffectView::Send(frame@),
        }
    }
}

/// The view of each element of a sequence of effects.
pub open spec fn effects_view(effects: Seq<SessionEffect>) -> Seq<EffectView> {
    effects.map_values(|e: SessionEffect| e@)
}

/// A session that has just ended, with one close frame for the peer.
pub open spec fn session_end(s: SessionView, caller_exit: bool, before: Seq<EffectView>) -> (
    SessionView,
    Seq<EffectView>,
) {
    (
        SessionView { status: SessionStatus::Ended { caller_exit }, ..s },
        before.push(EffectView::Send(FrameView::Close)),
    )
}

/// One step of a session at time `now`: the next state and the effects, in
/// order. A session that has ended takes no further step.
pub open spec fn session_step(
    s: SessionView,
    event: SessionEventView,
    now: u64,
    token: Option<Seq<char>>,
) -> (SessionView, Seq<EffectView>) {
    if s.status is Ended {
        (s, Seq::empty())
    } else {
        match event {
            SessionEventView::Stream(message) => {
                let published = match stream_event(message) {
                    Some(e) => seq![EffectView::Publish(e)],
                    None => Seq::empty(),
                };
                match stream_flow(message) {
                    LoopFlow::Continue => (s, published),
                    LoopFlow::Ping => (SessionView { last_ping: now, ..s }, published),
                    LoopFlow::Break => session_end(s, false, published),
                }
            },
            SessionEventView::Ctrl(ctrl) => if ctrl is Exit {
                session_end(s, true, Seq::empty())
            } else {
                match ctrl_frame(ctrl, token) {
                    Some(frame) => (s, seq![EffectView::Send(frame)]),
                    None => (s, Seq::empty()),
                }
            },
            SessionEventView::Tick => if keepalive_expired(s.last_ping, now, s.close_after) {
                session_end(s, false, Seq::empty())
            } else {
                (s, Seq::empty())
            },
            SessionEventView::SendFailure => session_end(s, false, Seq::empty()),
        }
    }
}

/// The state of one connection's session.
#[derive(Clone, Copy, Debug, PartialEq, Eq)]
pub struct TransportSession {
    close_after: u64,
    last_ping: u64,
    status: SessionStatus,
}

impl View for TransportSession {
    type V = SessionView;

    closed spec fn view(&self) -> SessionView {
        SessionView {
            close_after: self.close_after,
            last_ping: self.last_ping,
            status: self.status,
        }
    }
}

impl TransportSession {
    /// The session of a connection made at time `now`, and its first effect:
    /// the `Open` event for the bus.
    pub fn connected(close_after: u64, now: u64) -> (r: (Self, Vec<SessionEffect>))
        ensures
            r.0@ == (SessionView { close_after, last_ping: now, status: SessionStatus::Running }),
            effects_view(r.1@) == seq![EffectView::Publish(EventView::Open)],
    {
        let session = TransportSession { close_after, last_ping: now, status: SessionStatus::Running };
        let mut effects: Vec<SessionEffect> = Vec::new();
        effects.push(SessionEffect::Publish(EventMessage::Open()));
        assert(effects_view(effects@) =~= seq![EffectView::Publish(EventView::Open)]);
        (session, effects)
    }

    pub fn status(&self) -> (r: SessionStatus)
        ensures
            r == self@.status,
    {
        self.status
    }

    /// When the last ping came, or when the session began.
    pub fn last_ping(&self) -> (r: u64)
        ensures
            r == self@.last_ping,
    {
        self.last_ping
    }

    /// Whether the peer has been silent for too long at time `now`.
    pub fn is_expired(&self, now: u64) -> (r: bool)
        ensures
            r == keepalive_expired(self@.last_ping, now, self@.close_after),
    {
        now > self.last_ping && now - self.last_ping > self.close_after
    }

    /// Takes one event at time `now` and says what to publish and send.
    pub fn step(&mut self, event: SessionEvent, now: u64, header: &Option<WSClientHeader>) -> (effects:
        Vec<SessionEffect>)
        ensures
            (final(self)@, effects_view(effects@)) == session_step(
                old(self)@,
                event@,
                now,
                token_of(*header),
            ),
    {
        let mut effects: Vec<SessionEffect> = Vec::new();
        assert(effects_view(effects@) =~= Seq::<EffectView>::empty());
        match self.status {
            SessionStatus::Ended { .. } => {
                return effects;
            },
            SessionStatus::Running => {},
        }
        let mut end: Option<bool> = None;
        match event {
            SessionEvent::Stream(message) => {
                let (flow, published) = handle_stream_message(message);
                match published {
                    Some(e) => {
                        effects.push(SessionEffect::Publish(e));
                        assert(effects_view(effects@) =~= seq![EffectView::Publish(e@)]);
                    },
                    None => {},
                }
                match flow {
                    LoopFlow::Continue => {},
                    LoopFlow::Ping => {
                        self.last_ping = now;
                    },
                    LoopFlow::Break => {
                        end = Some(false);
                    },
                }
            },
            SessionEvent::Ctrl(ctrl) => {
                let (exit, frame) = handle_ctrl(ctrl, header);
                if exit {
                    end = Some(true);
                } else {
                    match frame {
                        Some(f) => {
                            effects.push(SessionEffect::Send(f));
                            assert(effects_view(effects@) =~= seq![EffectView::Send(f@)]);
                        },
                        None => {},
                    }
                }
            },
            SessionEvent::Tick => {
                if self.is_expired(now) {
                    end = Some(false);
                }
            },
            SessionEvent::SendFailure => {
                end = Some(false);
            },
        }
        match end {
            Some(caller_exit) => {
                let ghost before = effects_view(effects@);
                self.status = SessionStatus::Ended { caller_exit };
                effects.push(SessionEffect::Send(Frame::Close));
                assert(effects_view(effects@) =~= before.push(EffectView::Send(FrameView::Close)));
            },
            None => {},
        }
        effects
    }
}

} // verus!
