//! Guarantees over whole lifetimes of a session.
//!
//! A lifetime is the list of events that a session has seen since it was
//! constructed, in any order and of any length: a close frame may follow a
//! heartbeat timeout, a stop may come twice. The laws below hold of every
//! such list.

use vstd::prelude::*;
use crate::action::ActionView;
use crate::frame::FrameView;
use crate::session::{EventView, Outcome, Phase, SessionView, CLIENT_TIMEOUT, HEARTBEAT_INTERVAL};

verus! {

/// The state after `events`, starting from `start`, and all the actions
/// handed out on the way.
pub open spec fn run(start: SessionView, events: Seq<EventView>) -> Outcome
    decreases events.len(),
{
    if events.len() == 0 {
        (start, Seq::empty())
    } else {
        let before = run(start, events.drop_last());
        let last = before.0.step(events.last());
        (last.0, before.1 + last.1)
    }
}

/// How many of `actions` are of the kind that `kind` picks out.
pub open spec fn count(actions: Seq<ActionView>, kind: spec_fn(ActionView) -> bool) -> nat
    decreases actions.len(),
{
    if actions.len() == 0 {
        0
    } else {
        count(actions.drop_last(), kind) + if kind(actions.last()) {
            1nat
        } else {
            0nat
        }
    }
}

/// How many join requests `actions` holds.
pub open spec fn joins(actions: Seq<ActionView>) -> nat {
    count(actions, |a: ActionView| a is Join)
}

/// How many leave notifications `actions` holds.
pub open spec fn leaves(actions: Seq<ActionView>) -> nat {
    count(actions, |a: ActionView| a is Leave)
}

/// How many times `actions` asks for the transport to be closed.
pub open spec fn stops(actions: Seq<ActionView>) -> nat {
    count(actions, |a: ActionView| a is Stop)
}

/// How many room messages `actions` hands to the directory.
pub open spec fn relays(actions: Seq<ActionView>) -> nat {
    count(actions, |a: ActionView| a is Relay)
}

/// What a session and the actions it has handed out so far always have in
/// common.
pub open spec fn consistent(id: u128, room: u128, outcome: Outcome) -> bool {
    let (s, actions) = outcome;
    &&& s.wf()
    &&& s.id == id
    &&& s.room == room
    &&& joins(actions) == if s.join_sent { 1nat } else { 0nat }
    &&& leaves(actions) == if s.leave_sent { 1nat } else { 0nat }
    &&& stops(actions) <= 1
    &&& stops(actions) == 1 ==> s.phase != Phase::Active
    &&& relays(actions) > 0 ==> s.join_sent
}

proof fn lemma_count_of_concat(
    a: Seq<ActionView>,
    b: Seq<ActionView>,
    kind: spec_fn(ActionView) -> bool,
)
    ensures
        count(a + b, kind) == count(a, kind) + count(b, kind),
    decreases b.len(),
{
    if b.len() == 0 {
        assert(a + b =~= a);
    } else {
        assert((a + b).drop_last() =~= a + b.drop_last());
        assert((a + b).last() == b.last());
        lemma_count_of_concat(a, b.drop_last(), kind);
    }
}

proof fn lemma_counts_of_concat(a: Seq<ActionView>, b: Seq<ActionView>)
    ensures
        joins(a + b) == joins(a) + joins(b),
        leaves(a + b) == leaves(a) + leaves(b),
        stops(a + b) == stops(a) + stops(b),
        relays(a + b) == relays(a) + relays(b),
{
    lemma_count_of_concat(a, b, |x: ActionView| x is Join);
    lemma_count_of_concat(a, b, |x: ActionView| x is Leave);
    lemma_count_of_concat(a, b, |x: ActionView| x is Stop);
    lemma_count_of_concat(a, b, |x: ActionView| x is Relay);
}

proof fn lemma_count_of_short(a: Seq<ActionView>, kind: spec_fn(ActionView) -> bool)
    requires
        a.len() <= 2,
    ensures
        a.len() == 0 ==> count(a, kind) == 0,
        a.len() == 1 ==> count(a, kind) == if kind(a[0]) { 1nat } else { 0nat },
        a.len() == 2 ==> count(a, kind) == (if kind(a[0]) { 1nat } else { 0nat }) + (if kind(a[1]) {
            1nat
        } else {
            0nat
        }),
{
    reveal_with_fuel(count, 3);
    if a.len() == 2 {
        assert(a.drop_last().last() == a[0]);
    }
}

proof fn lemma_counts_of_short(a: Seq<ActionView>)
    requires
        a.len() <= 2,
    ensures
        a.len() == 0 ==> joins(a) == 0 && leaves(a) == 0 && stops(a) == 0 && relays(a) == 0,
        a.len() == 1 ==> {
            &&& joins(a) == if a[0] is Join { 1nat } else { 0nat }
            &&& leaves(a) == if a[0] is Leave { 1nat } else { 0nat }
            &&& stops(a) == if a[0] is Stop { 1nat } else { 0nat }
            &&& relays(a) == if a[0] is Relay { 1nat } else { 0nat }
        },
        a.len() == 2 ==> {
            &&& joins(a) == (if a[0] is Join { 1nat } else { 0nat }) + (if a[1] is Join { 1nat } else { 0nat })
            &&& leaves(a) == (if a[0] is Leave { 1nat } else { 0nat }) + (if a[1] is Leave { 1nat } else { 0nat })
            &&& stops(a) == (if a[0] is Stop { 1nat } else { 0nat }) + (if a[1] is Stop { 1nat } else { 0nat })
            &&& relays(a) == (if a[0] is Relay { 1nat } else { 0nat }) + (if a[1] is Relay { 1nat } else { 0nat })
        },
{
    lemma_count_of_short(a, |x: ActionView| x is Join);
    lemma_count_of_short(a, |x: ActionView| x is Leave);
    lemma_count_of_short(a, |x: ActionView| x is Stop);
    lemma_count_of_short(a, |x: ActionView| x is Relay);
}

/// One event changes neither the identity nor the room of a session, keeps
/// it well formed, and hands out at most two actions.
pub proof fn lemma_step_keeps(s: SessionView, event: EventView)
    requires
        s.wf(),
    ensures
        s.step(event).0.wf(),
        s.step(event).0.id == s.id,
        s.step(event).0.room == s.room,
        s.step(event).1.len() <= 2,
{
}

/// Every lifetime of a session keeps it consistent with the actions that
/// it has handed out.
pub proof fn lemma_run_consistent(id: u128, room: u128, now: u64, events: Seq<EventView>)
    ensures
        consistent(id, room, run(SessionView::initial(id, room, now), events)),
    decreases events.len(),
{
    let start = SessionView::initial(id, room, now);
    if events.len() == 0 {
        lemma_counts_of_short(Seq::<ActionView>::empty());
    } else {
        lemma_run_consistent(id, room, now, events.drop_last());
        let before = run(start, events.drop_last());
        let last = before.0.step(events.last());
        lemma_step_keeps(before.0, events.last());
        lemma_counts_of_short(last.1);
        lemma_counts_of_concat(before.1, last.1);
    }
}

/// Over the whole life of a session the join request is handed out at most
/// once, the leave notification at most once, and the transport is closed
/// at most once, whatever happens and in whatever order. A session that
/// is over has handed out its leave notification exactly once.
pub proof fn law_join_and_leave_once(id: u128, room: u128, now: u64, events: Seq<EventView>)
    ensures
        ({
            let (s, actions) = run(SessionView::initial(id, room, now), events);
            &&& joins(actions) <= 1
            &&& leaves(actions) <= 1
            &&& stops(actions) <= 1
            &&& s.phase == Phase::Terminated ==> leaves(actions) == 1
            &&& s.phase == Phase::Active ==> leaves(actions) == 0 && stops(actions) == 0
        }),
{
    lemma_run_consistent(id, room, now, events);
}

/// Nothing is handed to the directory for the room before the session
/// has asked to join it.
pub proof fn law_join_before_relay(id: u128, room: u128, now: u64, events: Seq<EventView>)
    ensures
        ({
            let (s, actions) = run(SessionView::initial(id, room, now), events);
            relays(actions) > 0 ==> joins(actions) == 1
        }),
{
    lemma_run_consistent(id, room, now, events);
}

/// A heartbeat that finds an active peer silent for longer than
/// `CLIENT_TIMEOUT` hands out the leave notification and closes the
/// transport, and nothing else; one that finds it silent for no longer
/// probes it and changes nothing.
pub proof fn law_heartbeat_timeout(s: SessionView, now: u64)
    requires
        s.wf(),
        s.phase == Phase::Active,
    ensures
        s.silence(now) > CLIENT_TIMEOUT ==> {
            &&& s.on_heartbeat(now).1 == seq![
                ActionView::Leave { id: s.id, room: s.room },
                ActionView::Stop,
            ]
            &&& s.on_heartbeat(now).0.phase == Phase::Closing
            &&& s.on_heartbeat(now).0.leave_sent
        },
        s.silence(now) <= CLIENT_TIMEOUT ==> {
            &&& s.on_heartbeat(now).0 == s
            &&& s.on_heartbeat(now).1.len() == 1
            &&& s.on_heartbeat(now).1[0] is SendPing
        },
{
}

/// With heartbeats one `HEARTBEAT_INTERVAL` apart, a peer that gives no
/// sign of life is torn down no later than one interval after its silence
/// has reached `CLIENT_TIMEOUT`: if the heartbeat at `tick` still found
/// the session alive, and the next one does not, then that next one comes
/// at most `HEARTBEAT_INTERVAL` after the timeout has elapsed, and it
/// leaves the room and closes the transport.
pub proof fn law_timeout_within_one_period(s: SessionView, tick: u64)
    requires
        s.wf(),
        s.phase == Phase::Active,
        s.last_heartbeat <= tick,
        !s.timed_out(tick),
        tick + HEARTBEAT_INTERVAL <= u64::MAX,
    ensures
        ({
            let next = (tick + HEARTBEAT_INTERVAL) as u64;
            let after = s.on_heartbeat(tick).0.on_heartbeat(next);
            s.timed_out(next) ==> {
                &&& next <= s.last_heartbeat + CLIENT_TIMEOUT + HEARTBEAT_INTERVAL
                &&& after.0.phase == Phase::Closing
                &&& after.1 == seq![ActionView::Leave { id: s.id, room: s.room }, ActionView::Stop]
            }
        }),
{
}

/// An active session answers every ping with exactly one pong that
/// carries the ping's payload, and takes the ping as a sign of life.
pub proof fn law_ping_is_answered(s: SessionView, payload: Seq<u8>, now: u64)
    requires
        s.phase == Phase::Active,
    ensures
        s.on_frame(FrameView::Ping(payload), now).1 == seq![ActionView::SendPong(payload)],
        s.on_frame(FrameView::Ping(payload), now).0 == s.alive_at(now),
        s.on_frame(FrameView::Ping(payload), now).0.silence(now) == 0,
{
}

/// A pong is a sign of life too, and is not answered.
pub proof fn law_pong_is_a_sign_of_life(s: SessionView, payload: Seq<u8>, now: u64)
    requires
        s.phase == Phase::Active,
    ensures
        s.on_frame(FrameView::Pong(payload), now).1 == Seq::<ActionView>::empty(),
        s.on_frame(FrameView::Pong(payload), now).0 == s.alive_at(now),
{
}

/// An active session that has asked to join hands every text frame to the
/// directory under its own identity and for its own room, with the text
/// as it came.
pub proof fn law_text_is_relayed(s: SessionView, text: Seq<char>, now: u64)
    requires
        s.phase == Phase::Active,
        s.join_sent,
    ensures
        s.on_frame(FrameView::Text(text), now).1 == seq![
            ActionView::Relay { id: s.id, room: s.room, text },
        ],
        s.on_frame(FrameView::Text(text), now).0 == s,
{
}

/// In any state, after a continuation frame the session is no longer
/// active, and nothing was handed to the directory for the room.
pub proof fn law_continuation_tears_down(s: SessionView, now: u64)
    ensures
        s.on_frame(FrameView::Continuation, now).0.phase != Phase::Active,
        relays(s.on_frame(FrameView::Continuation, now).1) == 0,
        s.phase == Phase::Active ==> s.on_frame(FrameView::Continuation, now).1 == seq![
            ActionView::Stop,
        ],
{
    lemma_counts_of_short(s.on_frame(FrameView::Continuation, now).1);
}

/// An active session writes every message that the directory delivers to
/// its transport as one text frame with the same text.
pub proof fn law_delivery_is_verbatim(s: SessionView, text: Seq<char>)
    requires
        s.phase == Phase::Active,
    ensures
        s.on_message(text).1 == seq![ActionView::SendText(text)],
        s.on_message(text).0 == s,
{
}

} // verus!
