//! What a session asks its caller to do.

use vstd::prelude::*;
use crate::frame::{reason_view, CloseReason, CloseReasonView};

verus! {

/// One operation on the transport or on the room directory. A handler
/// returns the operations in the order in which they must be performed.
#[derive(Clone, Debug, PartialEq, Eq)]
pub enum Action {
    /// Start the timer that fires the heartbeat every `period` milliseconds.
    StartHeartbeat { period: u64 },
    /// Register session `id` as a member of `room` with the directory.
    Join { id: u128, room: u128 },
    /// Tell the directory that session `id` has left `room`.
    Leave { id: u128, room: u128 },
    /// Hand `text`, sent by session `id`, to the directory for `room`.
    Relay { id: u128, room: u128, text: String },
    /// Write a ping frame with this payload.
    SendPing(Vec<u8>),
    /// Write a pong frame with this payload.
    SendPong(Vec<u8>),
    /// Write a text frame.
    SendText(String),
    /// Write a binary frame.
    SendBinary(Vec<u8>),
    /// Write a close frame.
    SendClose(Option<CloseReason>),
    /// Close the transport and stop serving the connection.
    Stop,
}

/// Mathematical value of an [`Action`].
pub ghost enum ActionView {
    StartHeartbeat { period: u64 },
    Join { id: u128, room: u128 },
    Leave { id: u128, room: u128 },
    Relay { id: u128, room: u128, text: Seq<char> },
    SendPing(Seq<u8>),
    SendPong(Seq<u8>),
    SendText(Seq<char>),
    SendBinary(Seq<u8>),
    SendClose(Option<CloseReasonView>),
    Stop,
}

impl View for Action {
    type V = ActionView;

    open spec fn view(&self) -> ActionView {
        match *self {
            Action::StartHeartbeat { period } => ActionView::StartHeartbeat { period },
            Action::Join { id, room } => ActionView::Join { id, room },
            Action::Leave { id, room } => ActionView::Leave { id, room },
            Action::Relay { id, room, text } => ActionView::Relay { id, room, text: text@ },
            Action::SendPing(p) => ActionView::SendPing(p@),
            Action::SendPong(p) => ActionView::SendPong(p@),
            Action::SendText(t) => ActionView::SendText(t@),
            Action::SendBinary(b) => ActionView::SendBinary(b@),
            Action::SendClose(r) => ActionView::SendClose(reason_view(r)),
            Action::Stop => ActionView::Stop,
        }
    }
}

/// The values of a list of actions, in order.
pub open spec fn views(actions: Seq<Action>) -> Seq<ActionView> {
    Seq::new(actions.len(), |i: int| actions[i]@)
}

} // verus!
