//! Inbound frames, as the transport classifies them.

use vstd::prelude::*;

verus! {

/// Why a peer closes the connection: a status code and an optional text.
#[derive(Clone, Debug, PartialEq, Eq)]
pub struct CloseReason {
    pub code: u16,
    pub description: Option<String>,
}

/// Mathematical value of a [`CloseReason`].
pub ghost struct CloseReasonView {
    pub code: u16,
    pub description: Option<Seq<char>>,
}

impl View for CloseReason {
    type V = CloseReasonView;

    open spec fn view(&self) -> CloseReasonView {
        CloseReasonView {
            code: self.code,
            description: match self.description {
                Some(d) => Some(d@),
                None => None,
            },
        }
    }
}

/// View of an optional close reason.
pub open spec fn reason_view(reason: Option<CloseReason>) -> Option<CloseReasonView> {
    match reason {
        Some(r) => Some(r@),
        None => None,
    }
}

/// One inbound unit of transport-level communication.
#[derive(Clone, Debug, PartialEq, Eq)]
pub enum Frame {
    /// A probe sent by the peer, with its payload.
    Ping(Vec<u8>),
    /// The peer's answer to a probe.
    Pong(Vec<u8>),
    /// A text message for the room.
    Text(String),
    /// A binary message.
    Binary(Vec<u8>),
    /// The peer closes the connection.
    Close(Option<CloseReason>),
    /// A fragment of a message split over several frames.
    Continuation,
    /// A control frame without payload.
    Nop,
    /// The transport could not decode what it received.
    Error,
}

/// Mathematical value of a [`Frame`].
pub ghost enum FrameView {
    Ping(Seq<u8>),
    Pong(Seq<u8>),
    Text(Seq<char>),
    Binary(Seq<u8>),
    Close(Option<CloseReasonView>),
    Continuation,
    Nop,
    Error,
}

impl View for Frame {
    type V = FrameView;

    open spec fn view(&self) -> FrameView {
        match *self {
            Frame::Ping(p) => FrameView::Ping(p@),
            Frame::Pong(p) => FrameView::Pong(p@),
            Frame::Text(t) => FrameView::Text(t@),
            Frame::Binary(b) => FrameView::Binary(b@),
            Frame::Close(r) => FrameView::Close(reason_view(r)),
            Frame::Continuation => FrameView::Continuation,
            Frame::Nop => FrameView::Nop,
            Frame::Error => FrameView::Error,
        }
    }
}

} // verus!
