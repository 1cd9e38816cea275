//! Per-connection session protocol of a chat relay.
//!
//! A [`WsConn`] is the state of one client connection. It never touches a
//! socket, a timer or the room directory itself: every handler takes what
//! happened (a frame arrived, the heartbeat timer fired, the directory
//! delivered a message) and returns the list of [`Action`]s that the caller
//! must carry out, in order. The handlers are specified by the transition
//! functions in [`session`], and the lifetime guarantees that follow from
//! them are proved in [`laws`].

pub mod action;
pub mod frame;
pub mod identity;
pub mod laws;
pub mod session;

pub use action::{Action, ActionView};
pub use frame::{CloseReason, CloseReasonView, Frame, FrameView};
pub use identity::is_random_identity;
pub use session::{Event, EventView, Phase, SessionView, WsConn, WsMessage};
pub use session::{CLIENT_TIMEOUT, HEARTBEAT_INTERVAL};
