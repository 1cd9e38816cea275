//! The session: its state, the events it reacts to, and its transitions.
//!
//! Time is a reading of a monotonic clock in milliseconds, handed in by the
//! caller with each event that needs it.

use vstd::prelude::*;
use crate::action::{views, Action, ActionView};
use crate::frame::{Frame, FrameView};
use crate::identity::{fresh_identity, is_random_identity};

verus! {

/// Period of the heartbeat, in milliseconds.
pub const HEARTBEAT_INTERVAL: u64 = 5000;

/// How long a peer may stay silent before it is declared dead, in
/// milliseconds.
pub const CLIENT_TIMEOUT: u64 = 10000;

/// Payload of the probes that the session sends: the bytes of `PING`.
pub open spec fn probe_payload() -> Seq<u8> {
    seq![80u8, 73u8, 78u8, 71u8]
}

/// Where a session is in its life.
#[derive(Clone, Copy, Debug, PartialEq, Eq, Structural)]
pub enum Phase {
    /// Serving the connection.
    Active,
    /// Teardown has begun; the transport is being closed.
    Closing,
    /// The session has deregistered and is over.
    Terminated,
}

/// A message that the room directory delivers to a session: the text to
/// write to the client.
#[derive(Clone, Debug, PartialEq, Eq)]
pub struct WsMessage(pub String);

/// Something that happens to a session.
#[derive(Clone, Debug, PartialEq, Eq)]
pub enum Event {
    /// The connection has been accepted and the session starts.
    Started,
    /// The directory answered the join request, or could not be reached.
    JoinOutcome { accepted: bool },
    /// The heartbeat timer fired at time `now`.
    Heartbeat { now: u64 },
    /// The transport delivered `frame` at time `now`.
    Inbound { frame: Frame, now: u64 },
    /// The directory delivered a message for this session.
    Outbound(WsMessage),
    /// The session is being stopped.
    Stopping,
}

/// Mathematical value of an [`Event`].
pub ghost enum EventView {
    Started,
    JoinOutcome { accepted: bool },
    Heartbeat { now: u64 },
    Inbound { frame: FrameView, now: u64 },
    Outbound(Seq<char>),
    Stopping,
}

impl View for Event {
    type V = EventView;

    open spec fn view(&self) -> EventView {
        match *self {
            Event::Started => EventView::Started,
            Event::JoinOutcome { accepted } => EventView::JoinOutcome { accepted },
            Event::Heartbeat { now } => EventView::Heartbeat { now },
            Event::Inbound { frame, now } => EventView::Inbound { frame: frame@, now },
            Event::Outbound(msg) => EventView::Outbound(msg.0@),
            Event::Stopping => EventView::Stopping,
        }
    }
}

/// Mathematical value of a session.
pub ghost struct SessionView {
    /// Identity under which the session is known to the directory.
    pub id: u128,
    /// Room that the session joins.
    pub room: u128,
    /// Time of the last sign of life from the peer.
    pub last_heartbeat: u64,
    pub phase: Phase,
    /// The join request has been handed out.
    pub join_sent: bool,
    /// The leave notification has been handed out.
    pub leave_sent: bool,
}

/// A state together with the actions that led to it.
pub type Outcome = (SessionView, Seq<ActionView>);

impl SessionView {
    /// The state of a session that has just been constructed.
    pub open spec fn initial(id: u128, room: u128, now: u64) -> SessionView {
        SessionView {
            id,
            room,
            last_heartbeat: now,
            phase: Phase::Active,
            join_sent: false,
            leave_sent: false,
        }
    }

    /// What holds of every session: one that has left is no longer active,
    /// and one that is over has left.
    pub open spec fn wf(self) -> bool {
        &&& self.leave_sent ==> self.phase != Phase::Active
        &&& self.phase == Phase::Terminated ==> self.leave_sent
    }

    /// Time without a sign of life at time `now`. A clock reading before the
    /// last sign of life counts as no time at all.
    pub open spec fn silence(self, now: u64) -> int {
        if now >= self.last_heartbeat {
            now - self.last_heartbeat
        } else {
            0
        }
    }

    /// Whether the peer counts as dead at time `now`.
    pub open spec fn timed_out(self, now: u64) -> bool {
        self.silence(now) > CLIENT_TIMEOUT
    }

    /// The leave notification of this session.
    pub open spec fn leave(self) -> ActionView {
        ActionView::Leave { id: self.id, room: self.room }
    }

    /// The state with the last sign of life at `now`.
    pub open spec fn alive_at(self, now: u64) -> SessionView {
        SessionView { last_heartbeat: now, ..self }
    }

    /// Begin teardown: an active session asks for the transport to be
    /// closed, once; any other session is left as it is.
    pub open spec fn teardown(self) -> Outcome {
        if self.phase == Phase::Active {
            (SessionView { phase: Phase::Closing, ..self }, seq![ActionView::Stop])
        } else {
            (self, Seq::empty())
        }
    }

    /// The session starts: it starts the heartbeat and asks to join its
    /// room. Only the first start of an active session does anything.
    pub open spec fn on_started(self) -> Outcome {
        if self.phase == Phase::Active && !self.join_sent {
            (
                SessionView { join_sent: true, ..self },
                seq![
                    ActionView::StartHeartbeat { period: HEARTBEAT_INTERVAL },
                    ActionView::Join { id: self.id, room: self.room },
                ],
            )
        } else {
            (self, Seq::empty())
        }
    }

    /// The join request was answered: a refusal, or a directory out of
    /// reach, begins teardown.
    pub open spec fn on_join_outcome(self, accepted: bool) -> Outcome {
        if accepted {
            (self, Seq::empty())
        } else {
            self.teardown()
        }
    }

    /// The heartbeat timer fired. A peer that has been silent for longer
    /// than `CLIENT_TIMEOUT` is declared dead: the session leaves its room
    /// and begins teardown, without probing. Otherwise it probes the peer.
    pub open spec fn on_heartbeat(self, now: u64) -> Outcome {
        if self.phase != Phase::Active {
            (self, Seq::empty())
        } else if self.timed_out(now) {
            if self.leave_sent {
                (SessionView { phase: Phase::Closing, ..self }, seq![ActionView::Stop])
            } else {
                (
                    SessionView { phase: Phase::Closing, leave_sent: true, ..self },
                    seq![self.leave(), ActionView::Stop],
                )
            }
        } else {
            (self, seq![ActionView::SendPing(probe_payload())])
        }
    }

    /// The transport delivered a frame. Only an active session reads it.
    pub open spec fn on_frame(self, frame: FrameView, now: u64) -> Outcome {
        if self.phase != Phase::Active {
            (self, Seq::empty())
        } else {
            match frame {
                FrameView::Ping(payload) => (
                    self.alive_at(now),
                    seq![ActionView::SendPong(payload)],
                ),
                FrameView::Pong(_) => (self.alive_at(now), Seq::empty()),
                FrameView::Binary(data) => (self, seq![ActionView::SendBinary(data)]),
                FrameView::Close(reason) => (
                    SessionView { phase: Phase::Closing, ..self },
                    seq![ActionView::SendClose(reason), ActionView::Stop],
                ),
                FrameView::Continuation => self.teardown(),
                FrameView::Nop => (self, Seq::empty()),
                FrameView::Text(text) => if self.join_sent {
                    (self, seq![ActionView::Relay { id: self.id, room: self.room, text }])
                } else {
                    (self, Seq::empty())
                },
                FrameView::Error => self.teardown(),
            }
        }
    }

    /// The directory delivered a message: an active session writes it to
    /// the transport as it is.
    pub open spec fn on_message(self, text: Seq<char>) -> Outcome {
        if self.phase == Phase::Active {
            (self, seq![ActionView::SendText(text)])
        } else {
            (self, Seq::empty())
        }
    }

    /// The session stops: it leaves its room, unless it has done so
    /// already, and is over.
    pub open spec fn on_stopping(self) -> Outcome {
        if self.leave_sent {
            (SessionView { phase: Phase::Terminated, ..self }, Seq::empty())
        } else {
            (
                SessionView { phase: Phase::Terminated, leave_sent: true, ..self },
                seq![self.leave()],
            )
        }
    }

    /// The transition function: the next state and the actions for one
    /// event.
    pub open spec fn step(self, event: EventView) -> Outcome {
        match event {
            EventView::Started => self.on_started(),
            EventView::JoinOutcome { accepted } => self.on_join_outcome(accepted),
            EventView::Heartbeat { now } => self.on_heartbeat(now),
            EventView::Inbound { frame, now } => self.on_frame(frame, now),
            EventView::Outbound(text) => self.on_message(text),
            EventView::Stopping => self.on_stopping(),
        }
    }
}

/// The live state of one connection.
#[derive(Debug)]
pub struct WsConn {
    room: u128,
    hb: u64,
    id: u128,
    phase: Phase,
    join_sent: bool,
    leave_sent: bool,
}

impl View for WsConn {
    type V = SessionView;

    closed spec fn view(&self) -> SessionView {
        SessionView {
            id: self.id,
            room: self.room,
            last_heartbeat: self.hb,
            phase: self.phase,
            join_sent: self.join_sent,
            leave_sent: self.leave_sent,
        }
    }
}

impl WsConn {
    #[verifier::type_invariant]
    spec fn inv(self) -> bool {
        self@.wf()
    }

    /// A session for `room`, created at time `now`, under a fresh random
    /// identity.
    pub fn new(room: u128, now: u64) -> (conn: WsConn)
        ensures
            conn@ == SessionView::initial(conn@.id, room, now),
            is_random_identity(conn@.id),
            conn@.wf(),
    {
        WsConn::with_identity(fresh_identity(), room, now)
    }

    /// A session for `room`, created at time `now`, under the identity
    /// `id`.
    pub fn with_identity(id: u128, room: u128, now: u64) -> (conn: WsConn)
        ensures
            conn@ == SessionView::initial(id, room, now),
            conn@.wf(),
    {
        WsConn { room, hb: now, id, phase: Phase::Active, join_sent: false, leave_sent: false }
    }

    /// The session starts.
    pub fn started(&mut self) -> (actions: Vec<Action>)
        ensures
            final(self)@ == old(self)@.on_started().0,
            views(actions@) == old(self)@.on_started().1,
            final(self)@.wf(),
    {
        proof {
            use_type_invariant(&*self);
        }
        let mut actions: Vec<Action> = Vec::new();
        if self.phase == Phase::Active && !self.join_sent {
            self.join_sent = true;
            actions.push(Action::StartHeartbeat { period: HEARTBEAT_INTERVAL });
            actions.push(Action::Join { id: self.id, room: self.room });
        }
        assert(views(actions@) =~= old(self)@.on_started().1);
        actions
    }

    /// The directory answered the join request (`accepted`), or the request
    /// could not be delivered (`!accepted`).
    pub fn join_outcome(&mut self, accepted: bool) -> (actions: Vec<Action>)
        ensures
            final(self)@ == old(self)@.on_join_outcome(accepted).0,
            views(actions@) == old(self)@.on_join_outcome(accepted).1,
            final(self)@.wf(),
    {
        if accepted {
            proof {
                use_type_invariant(&*self);
            }
            let actions: Vec<Action> = Vec::new();
            assert(views(actions@) =~= Seq::<ActionView>::empty());
            actions
        } else {
            self.teardown()
        }
    }

    /// Begin teardown, if it has not begun yet.
    fn teardown(&mut self) -> (actions: Vec<Action>)
        ensures
            final(self)@ == old(self)@.teardown().0,
            views(actions@) == old(self)@.teardown().1,
            final(self)@.wf(),
    {
        proof {
            use_type_invariant(&*self);
        }
        let mut actions: Vec<Action> = Vec::new();
        if self.phase == Phase::Active {
            self.phase = Phase::Closing;
            actions.push(Action::Stop);
        }
        assert(views(actions@) =~= old(self)@.teardown().1);
        actions
    }

    /// The session is being stopped.
    pub fn stopping(&mut self) -> (actions: Vec<Action>)
        ensures
            final(self)@ == old(self)@.on_stopping().0,
            views(actions@) == old(self)@.on_stopping().1,
            final(self)@.wf(),
    {
        let mut actions: Vec<Action> = Vec::new();
        if !self.leave_sent {
            actions.push(Action::Leave { id: self.id, room: self.room });
        }
        *self = WsConn { phase: Phase::Terminated, leave_sent: true, ..*self };
        assert(views(actions@) =~= old(self)@.on_stopping().1);
        actions
    }

    /// Whether the peer counts as dead at time `now`.
    pub fn timed_out(&self, now: u64) -> (dead: bool)
        ensures
            dead == self@.timed_out(now),
    {
        now >= self.hb && now - self.hb > CLIENT_TIMEOUT
    }

    /// The heartbeat timer fired at time `now`.
    pub fn hb(&mut self, now: u64) -> (actions: Vec<Action>)
        ensures
            final(self)@ == old(self)@.on_heartbeat(now).0,
            views(actions@) == old(self)@.on_heartbeat(now).1,
            final(self)@.wf(),
    {
        proof {
            use_type_invariant(&*self);
        }
        let mut actions: Vec<Action> = Vec::new();
        if self.phase == Phase::Active {
            if self.timed_out(now) {
                if !self.leave_sent {
                    actions.push(Action::Leave { id: self.id, room: self.room });
                }
                self.phase = Phase::Closing;
                self.leave_sent = true;
                actions.push(Action::Stop);
            } else {
                let payload: Vec<u8> = vec![80u8, 73u8, 78u8, 71u8];
                assert(payload@ =~= probe_payload());
                actions.push(Action::SendPing(payload));
            }
        }
        assert(views(actions@) =~= old(self)@.on_heartbeat(now).1);
        actions
    }

    /// The transport delivered `frame` at time `now`.
    pub fn handle(&mut self, frame: Frame, now: u64) -> (actions: Vec<Action>)
        ensures
            final(self)@ == old(self)@.on_frame(frame@, now).0,
            views(actions@) == old(self)@.on_frame(frame@, now).1,
            final(self)@.wf(),
    {
        proof {
            use_type_invariant(&*self);
        }
        if self.phase != Phase::Active {
            let actions: Vec<Action> = Vec::new();
            assert(views(actions@) =~= Seq::<ActionView>::empty());
            return actions;
        }
        let mut actions: Vec<Action> = Vec::new();
        match frame {
            Frame::Ping(payload) => {
                self.hb = now;
                actions.push(Action::SendPong(payload));
            },
            Frame::Pong(_) => {
                self.hb = now;
            },
            Frame::Binary(data) => {
                actions.push(Action::SendBinary(data));
            },
            Frame::Close(reason) => {
                self.phase = Phase::Closing;
                actions.push(Action::SendClose(reason));
                actions.push(Action::Stop);
            },
            Frame::Continuation => {
                return self.teardown();
            },
            Frame::Nop => {},
            Frame::Text(text) => {
                if self.join_sent {
                    actions.push(Action::Relay { id: self.id, room: self.room, text });
                }
            },
            Frame::Error => {
                return self.teardown();
            },
        }
        assert(views(actions@) =~= old(self)@.on_frame(frame@, now).1);
        actions
    }

    /// The directory delivered `msg` for this session.
    pub fn handle_message(&mut self, msg: WsMessage) -> (actions: Vec<Action>)
        ensures
            final(self)@ == old(self)@.on_message(msg.0@).0,
            views(actions@) == old(self)@.on_message(msg.0@).1,
            final(self)@.wf(),
    {
        proof {
            use_type_invariant(&*self);
        }
        let mut actions: Vec<Action> = Vec::new();
        if self.phase == Phase::Active {
            actions.push(Action::SendText(msg.0));
        }
        assert(views(actions@) =~= old(self)@.on_message(msg.0@).1);
        actions
    }

    /// React to `event`: move to the next state and return what the caller
    /// must do, in order.
    pub fn step(&mut self, event: Event) -> (actions: Vec<Action>)
        ensures
            final(self)@ == old(self)@.step(event@).0,
            views(actions@) == old(self)@.step(event@).1,
            final(self)@.wf(),
    {
        match event {
            Event::Started => self.started(),
            Event::JoinOutcome { accepted } => self.join_outcome(accepted),
            Event::Heartbeat { now } => self.hb(now),
            Event::Inbound { frame, now } => self.handle(frame, now),
            Event::Outbound(msg) => self.handle_message(msg),
            Event::Stopping => self.stopping(),
        }
    }

    /// Identity under which the session is known to the directory.
    pub fn id(&self) -> (id: u128)
        ensures
            id == self@.id,
    {
        self.id
    }

    /// Room that the session joins.
    pub fn room(&self) -> (room: u128)
        ensures
            room == self@.room,
    {
        self.room
    }

    /// Time of the last sign of life from the peer.
    pub fn last_heartbeat(&self) -> (at: u64)
        ensures
            at == self@.last_heartbeat,
    {
        self.hb
    }

    /// Where the session is in its life.
    pub fn phase(&self) -> (phase: Phase)
        ensures
            phase == self@.phase,
    {
        self.phase
    }
}

} // verus!
