//! The values that travel through the client: wire frames, bus events and
//! caller commands, each with its mathematical view.

use vstd::prelude::*;

verus! {

/// A WebSocket frame as the transport hands it over, reduced to what the
/// client reads: the kind, and the payload of the two data kinds.
#[derive(Debug, PartialEq, Eq)]
pub enum Frame {
    Text(String),
    Binary(Vec<u8>),
    Ping,
    Pong,
    Close,
    /// Any other frame kind (a raw or continuation frame).
    Other,
}

pub enum FrameView {
    Text(Seq<char>),
    Binary(Seq<u8>),
    Ping,
    Pong,
    Close,
    Other,
}

impl View for Frame {
    type V = FrameView;

    open spec fn view(&self) -> FrameView {
        match self {
            Frame::Text(t) => FrameView::Text(t@),
            Frame::Binary(b) => FrameView::Binary(b@),
            Frame::Ping => FrameView::Ping,
            Frame::Pong => FrameView::Pong,
            Frame::Close => FrameView::Close,
            Frame::Other => FrameView::Other,
        }
    }
}

/// The transport could not decode what it read into a frame.
#[derive(Clone, Copy, Debug, PartialEq, Eq, Structural)]
pub struct ProtocolAnomaly;

/// What the inbound side of a connection yields: a frame, or the report
/// that one could not be decoded.
pub open spec fn inbound_view(message: Result<Frame, ProtocolAnomaly>) -> Option<FrameView> {
    match message {
        Ok(frame) => Some(frame@),
        Err(_) => None,
    }
}

/// An event delivered to the subscribers of the bus.
#[derive(Debug, PartialEq, Eq)]
pub enum EventMessage {
    /// A session has begun.
    Open(),
    /// A connection has closed. A session publishes none: when the peer
    /// closes, the session ends and the next one publishes `Open`.
    Close(),
    /// The payload of an inbound text frame, unchanged.
    Text(String),
    /// The payload of an inbound binary frame, unchanged.
    Binary(Vec<u8>),
}

pub enum EventView {
    Open,
    Close,
    Text(Seq<char>),
    Binary(Seq<u8>),
}

impl View for EventMessage {
    type V = EventView;

    open spec fn view(&self) -> EventView {
        match self {
            EventMessage::Open() => EventView::Open,
            EventMessage::Close() => EventView::Close,
            EventMessage::Text(t) => EventView::Text(t@),
            EventMessage::Binary(b) => EventView::Binary(b@),
        }
    }
}

impl Clone for EventMessage {
    fn clone(&self) -> (r: Self)
        ensures
            r@ == self@,
    {
        match self {
            EventMessage::Open() => EventMessage::Open(),
            EventMessage::Close() => EventMessage::Close(),
            EventMessage::Text(t) => EventMessage::Text(t.clone()),
            EventMessage::Binary(b) => EventMessage::Binary(b.clone()),
        }
    }
}

/// An intent that a caller hands to the client. `Send` carries a command
/// number and a payload that is already JSON text; the session wraps both in
/// an envelope when it takes the command up.
#[derive(Debug, PartialEq, Eq)]
pub enum WSClientCtrl {
    Exit,
    Send((u32, String)),
    SendText(String),
    SendBinary(Vec<u8>),
}

pub enum CtrlView {
    Exit,
    Send(u32, Seq<char>),
    SendText(Seq<char>),
    SendBinary(Seq<u8>),
}

impl View for WSClientCtrl {
    type V = CtrlView;

    open spec fn view(&self) -> CtrlView {
        match self {
            WSClientCtrl::Exit => CtrlView::Exit,
            WSClientCtrl::Send(pair) => CtrlView::Send(pair.0, pair.1@),
            WSClientCtrl::SendText(t) => CtrlView::SendText(t@),
            WSClientCtrl::SendBinary(b) => CtrlView::SendBinary(b@),
        }
    }
}

/// The view of each element of a sequence of events.
pub open spec fn events_view(events: Seq<EventMessage>) -> Seq<EventView> {
    events.map_values(|e: EventMessage| e@)
}

/// The view of each element of a sequence of frames.
pub open spec fn frames_view(frames: Seq<Frame>) -> Seq<FrameView> {
    frames.map_values(|f: Frame| f@)
}

/// The view of each element of a sequence of commands.
pub open spec fn ctrls_view(ctrls: Seq<WSClientCtrl>) -> Seq<CtrlView> {
    ctrls.map_values(|c: WSClientCtrl| c@)
}

/// An inbound message as a subscriber gets it. Text and bytes arrive as
/// they were sent; `JSON` is for a subscriber that has JSON payloads told
/// apart, and holds the JSON text.
#[derive(Debug, PartialEq, Eq)]
pub enum WSMessage {
    Open(),
    Close(),
    Text(String),
    Binary(Vec<u8>),
    JSON(String),
}

pub enum WSMessageView {
    Open,
    Close,
    Text(Seq<char>),
    Binary(Seq<u8>),
    JSON(Seq<char>),
}

impl View for WSMessage {
    type V = WSMessageView;

    open spec fn view(&self) -> WSMessageView {
        match self {
            WSMessage::Open() => WSMessageView::Open,
            WSMessage::Close() => WSMessageView::Close,
            WSMessage::Text(t) => WSMessageView::Text(t@),
            WSMessage::Binary(b) => WSMessageView::Binary(b@),
            WSMessage::JSON(t) => WSMessageView::JSON(t@),
        }
    }
}

/// The view of a value that may be absent.
pub open spec fn option_view<T: View>(item: Option<T>) -> Option<T::V> {
    match item {
        Some(value) => Some(value@),
        None => None,
    }
}

} // verus!
