use chat_session::{Action, CloseReason, Event, Frame, Phase, WsConn, WsMessage};
use chat_session::{CLIENT_TIMEOUT, HEARTBEAT_INTERVAL};

const S: u128 = 0x0123_4567_89ab_4def_8123_4567_89ab_cdef;
const R: u128 = 0xfeed_f00d_0000_4000_8000_0000_0000_0001;

fn joined(now: u64) -> WsConn {
    let mut conn = WsConn::with_identity(S, R, now);
    conn.started();
    conn.join_outcome(true);
    conn
}

fn count(actions: &[Action], kind: fn(&Action) -> bool) -> usize {
    actions.iter().filter(|a| kind(a)).count()
}

fn is_leave(a: &Action) -> bool {
    matches!(a, Action::Leave { .. })
}

fn is_join(a: &Action) -> bool {
    matches!(a, Action::Join { .. })
}

fn is_stop(a: &Action) -> bool {
    matches!(a, Action::Stop)
}

fn is_relay(a: &Action) -> bool {
    matches!(a, Action::Relay { .. })
}

#[test]
fn constants_are_five_and_ten_seconds() {
    assert_eq!(HEARTBEAT_INTERVAL, 5_000);
    assert_eq!(CLIENT_TIMEOUT, 10_000);
    assert!(CLIENT_TIMEOUT > HEARTBEAT_INTERVAL);
}

#[test]
fn a_new_session_is_active_and_alive() {
    let conn = WsConn::with_identity(S, R, 42);
    assert_eq!(conn.id(), S);
    assert_eq!(conn.room(), R);
    assert_eq!(conn.last_heartbeat(), 42);
    assert_eq!(conn.phase(), Phase::Active);
}

#[test]
fn new_draws_a_random_version_four_identity() {
    let a = WsConn::new(R, 7);
    let b = WsConn::new(R, 7);
    assert_eq!(a.room(), R);
    assert_eq!(a.last_heartbeat(), 7);
    assert_eq!(a.phase(), Phase::Active);
    for conn in [&a, &b] {
        let id = uuid::Uuid::from_u128(conn.id());
        assert_eq!(id.get_version_num(), 4);
        assert_eq!((conn.id() >> 76) & 0xf, 4);
        assert_eq!((conn.id() >> 62) & 0x3, 2);
    }
    assert_ne!(a.id(), b.id());
}

#[test]
fn start_begins_the_heartbeat_and_asks_to_join() {
    let mut conn = WsConn::with_identity(S, R, 0);
    assert_eq!(
        conn.started(),
        vec![Action::StartHeartbeat { period: 5_000 }, Action::Join { id: S, room: R }]
    );
    assert_eq!(conn.phase(), Phase::Active);
}

#[test]
fn a_second_start_does_nothing() {
    let mut conn = WsConn::with_identity(S, R, 0);
    conn.started();
    assert_eq!(conn.started(), vec![]);
}

#[test]
fn an_accepted_join_changes_nothing() {
    let mut conn = WsConn::with_identity(S, R, 0);
    conn.started();
    assert_eq!(conn.join_outcome(true), vec![]);
    assert_eq!(conn.phase(), Phase::Active);
}

#[test]
fn a_failed_join_tears_the_session_down() {
    let mut conn = WsConn::with_identity(S, R, 0);
    conn.started();
    assert_eq!(conn.join_outcome(false), vec![Action::Stop]);
    assert_eq!(conn.phase(), Phase::Closing);
    assert_eq!(conn.stopping(), vec![Action::Leave { id: S, room: R }]);
    assert_eq!(conn.phase(), Phase::Terminated);
}

#[test]
fn stopping_leaves_the_room_even_without_a_join() {
    let mut conn = WsConn::with_identity(S, R, 0);
    assert_eq!(conn.stopping(), vec![Action::Leave { id: S, room: R }]);
    assert_eq!(conn.phase(), Phase::Terminated);
}

#[test]
fn stopping_twice_leaves_once() {
    let mut conn = joined(0);
    assert_eq!(conn.stopping(), vec![Action::Leave { id: S, room: R }]);
    assert_eq!(conn.stopping(), vec![]);
    assert_eq!(conn.phase(), Phase::Terminated);
}

#[test]
fn heartbeat_probes_a_live_peer() {
    let mut conn = joined(0);
    assert_eq!(conn.hb(5_000), vec![Action::SendPing(b"PING".to_vec())]);
    assert_eq!(conn.phase(), Phase::Active);
    assert_eq!(conn.last_heartbeat(), 0);
}

#[test]
fn heartbeat_at_exactly_the_timeout_still_probes() {
    let mut conn = joined(1_000);
    assert!(!conn.timed_out(11_000));
    assert_eq!(conn.hb(11_000), vec![Action::SendPing(vec![80, 73, 78, 71])]);
    assert_eq!(conn.phase(), Phase::Active);
}

#[test]
fn heartbeat_one_millisecond_past_the_timeout_tears_down() {
    let mut conn = joined(1_000);
    assert!(conn.timed_out(11_001));
    assert_eq!(conn.hb(11_001), vec![Action::Leave { id: S, room: R }, Action::Stop]);
    assert_eq!(conn.phase(), Phase::Closing);
}

#[test]
fn a_clock_reading_before_the_last_sign_of_life_is_no_silence() {
    let mut conn = joined(50_000);
    assert!(!conn.timed_out(0));
    assert_eq!(conn.hb(0), vec![Action::SendPing(b"PING".to_vec())]);
}

#[test]
fn silence_is_measured_without_overflow() {
    let mut conn = joined(0);
    assert!(conn.timed_out(u64::MAX));
    assert_eq!(conn.hb(u64::MAX), vec![Action::Leave { id: S, room: R }, Action::Stop]);
    let late = joined(u64::MAX);
    assert!(!late.timed_out(u64::MAX));
}

#[test]
fn heartbeat_after_teardown_does_nothing() {
    let mut conn = joined(0);
    conn.hb(20_000);
    assert_eq!(conn.hb(25_000), vec![]);
    conn.stopping();
    assert_eq!(conn.hb(30_000), vec![]);
    assert_eq!(conn.phase(), Phase::Terminated);
}

#[test]
fn timeout_then_stop_leaves_exactly_once() {
    let mut conn = joined(0);
    let mut all = conn.hb(10_001);
    all.extend(conn.stopping());
    assert_eq!(all, vec![Action::Leave { id: S, room: R }, Action::Stop]);
    assert_eq!(conn.phase(), Phase::Terminated);
}

#[test]
fn timeout_racing_with_a_close_frame_tears_down_once() {
    let events = vec![
        Event::Started,
        Event::JoinOutcome { accepted: true },
        Event::Heartbeat { now: 12_000 },
        Event::Inbound { frame: Frame::Close(None), now: 12_000 },
        Event::Stopping,
        Event::Stopping,
    ];
    let mut conn = WsConn::with_identity(S, R, 0);
    let mut all = Vec::new();
    for event in events {
        all.extend(conn.step(event));
    }
    assert_eq!(count(&all, is_join), 1);
    assert_eq!(count(&all, is_leave), 1);
    assert_eq!(count(&all, is_stop), 1);
    assert_eq!(conn.phase(), Phase::Terminated);

    let events = vec![
        Event::Started,
        Event::JoinOutcome { accepted: true },
        Event::Inbound { frame: Frame::Close(None), now: 12_000 },
        Event::Heartbeat { now: 12_000 },
        Event::Stopping,
    ];
    let mut conn = WsConn::with_identity(S, R, 0);
    let mut all = Vec::new();
    for event in events {
        all.extend(conn.step(event));
    }
    assert_eq!(
        all,
        vec![
            Action::StartHeartbeat { period: 5_000 },
            Action::Join { id: S, room: R },
            Action::SendClose(None),
            Action::Stop,
            Action::Leave { id: S, room: R },
        ]
    );
}

#[test]
fn ping_is_answered_with_the_same_payload() {
    let mut conn = joined(0);
    assert_eq!(
        conn.handle(Frame::Ping(vec![1, 2, 3]), 4_000),
        vec![Action::SendPong(vec![1, 2, 3])]
    );
    assert_eq!(conn.last_heartbeat(), 4_000);
    assert_eq!(conn.handle(Frame::Ping(vec![]), 4_500), vec![Action::SendPong(vec![])]);
    assert_eq!(conn.last_heartbeat(), 4_500);
    assert_eq!(conn.phase(), Phase::Active);
}

#[test]
fn pong_resets_liveness_and_is_not_answered() {
    let mut conn = joined(0);
    assert_eq!(conn.handle(Frame::Pong(b"PING".to_vec()), 9_000), vec![]);
    assert_eq!(conn.last_heartbeat(), 9_000);
    assert_eq!(conn.hb(19_000), vec![Action::SendPing(b"PING".to_vec())]);
}

#[test]
fn binary_is_passed_through() {
    let mut conn = joined(0);
    assert_eq!(
        conn.handle(Frame::Binary(vec![0, 255, 7]), 100),
        vec![Action::SendBinary(vec![0, 255, 7])]
    );
    assert_eq!(conn.last_heartbeat(), 0);
    assert_eq!(conn.phase(), Phase::Active);
}

#[test]
fn close_is_echoed_and_begins_teardown() {
    let reason = CloseReason { code: 1000, description: Some(String::from("bye")) };
    let mut conn = joined(0);
    assert_eq!(
        conn.handle(Frame::Close(Some(reason.clone())), 100),
        vec![Action::SendClose(Some(reason)), Action::Stop]
    );
    assert_eq!(conn.phase(), Phase::Closing);
    assert_eq!(conn.stopping(), vec![Action::Leave { id: S, room: R }]);
    assert_eq!(conn.phase(), Phase::Terminated);
}

#[test]
fn close_without_a_reason_is_echoed_without_one() {
    let mut conn = joined(0);
    assert_eq!(conn.handle(Frame::Close(None), 100), vec![Action::SendClose(None), Action::Stop]);
}

#[test]
fn continuation_tears_down_and_relays_nothing() {
    let mut conn = joined(0);
    let actions = conn.handle(Frame::Continuation, 100);
    assert_eq!(actions, vec![Action::Stop]);
    assert_eq!(count(&actions, is_relay), 0);
    assert_eq!(conn.phase(), Phase::Closing);
}

#[test]
fn continuation_in_any_state_leaves_the_session_torn_down() {
    let mut closing = joined(0);
    closing.handle(Frame::Close(None), 1);
    assert_eq!(closing.handle(Frame::Continuation, 2), vec![]);
    assert_eq!(closing.phase(), Phase::Closing);

    let mut over = joined(0);
    over.stopping();
    assert_eq!(over.handle(Frame::Continuation, 2), vec![]);
    assert_eq!(over.phase(), Phase::Terminated);

    let mut fresh = WsConn::with_identity(S, R, 0);
    assert_eq!(fresh.handle(Frame::Continuation, 2), vec![Action::Stop]);
    assert_eq!(fresh.phase(), Phase::Closing);
}

#[test]
fn nop_is_ignored() {
    let mut conn = joined(0);
    assert_eq!(conn.handle(Frame::Nop, 7_000), vec![]);
    assert_eq!(conn.last_heartbeat(), 0);
    assert_eq!(conn.phase(), Phase::Active);
}

#[test]
fn a_transport_error_tears_down() {
    let mut conn = joined(0);
    assert_eq!(conn.handle(Frame::Error, 100), vec![Action::Stop]);
    assert_eq!(conn.phase(), Phase::Closing);
    assert_eq!(conn.stopping(), vec![Action::Leave { id: S, room: R }]);
}

#[test]
fn text_is_relayed_for_the_own_room() {
    let mut conn = joined(0);
    assert_eq!(
        conn.handle(Frame::Text(String::from("hello")), 100),
        vec![Action::Relay { id: S, room: R, text: String::from("hello") }]
    );
    assert_eq!(conn.last_heartbeat(), 0);
    assert_eq!(conn.phase(), Phase::Active);
}

#[test]
fn text_is_relayed_verbatim() {
    let mut conn = joined(0);
    let text = String::from("  /whisper x \u{1F600}\n");
    assert_eq!(
        conn.handle(Frame::Text(text.clone()), 100),
        vec![Action::Relay { id: S, room: R, text }]
    );
    assert_eq!(
        conn.handle(Frame::Text(String::new()), 100),
        vec![Action::Relay { id: S, room: R, text: String::new() }]
    );
}

#[test]
fn text_before_the_join_request_is_not_relayed() {
    let mut conn = WsConn::with_identity(S, R, 0);
    assert_eq!(conn.handle(Frame::Text(String::from("early")), 1), vec![]);
    conn.started();
    assert_eq!(
        conn.handle(Frame::Text(String::from("now")), 2),
        vec![Action::Relay { id: S, room: R, text: String::from("now") }]
    );
}

#[test]
fn frames_after_teardown_are_dropped() {
    let mut conn = joined(0);
    conn.handle(Frame::Close(None), 1);
    assert_eq!(conn.handle(Frame::Text(String::from("late")), 2), vec![]);
    assert_eq!(conn.handle(Frame::Ping(vec![9]), 3), vec![]);
    assert_eq!(conn.handle(Frame::Close(None), 4), vec![]);
    assert_eq!(conn.handle(Frame::Error, 5), vec![]);
    assert_eq!(conn.last_heartbeat(), 0);
    assert_eq!(conn.phase(), Phase::Closing);
}

#[test]
fn a_delivered_message_is_written_as_text() {
    let mut conn = joined(0);
    assert_eq!(
        conn.handle_message(WsMessage(String::from("hi there"))),
        vec![Action::SendText(String::from("hi there"))]
    );
    assert_eq!(conn.phase(), Phase::Active);
}

#[test]
fn a_delivered_message_is_written_byte_for_byte() {
    let mut conn = joined(0);
    let text = String::from("\u{0}tab\there \u{00e9}\u{4e2d}");
    let actions = conn.handle_message(WsMessage(text.clone()));
    match &actions[..] {
        [Action::SendText(written)] => assert_eq!(written.as_bytes(), text.as_bytes()),
        _ => panic!("expected one text frame"),
    }
}

#[test]
fn a_message_for_a_session_in_teardown_is_not_written() {
    let mut conn = joined(0);
    conn.handle(Frame::Error, 1);
    assert_eq!(conn.handle_message(WsMessage(String::from("x"))), vec![]);
    conn.stopping();
    assert_eq!(conn.handle_message(WsMessage(String::from("y"))), vec![]);
}

#[test]
fn step_dispatches_each_event_to_its_handler() {
    let mut conn = WsConn::with_identity(S, R, 0);
    assert_eq!(
        conn.step(Event::Started),
        vec![Action::StartHeartbeat { period: 5_000 }, Action::Join { id: S, room: R }]
    );
    assert_eq!(conn.step(Event::JoinOutcome { accepted: true }), vec![]);
    assert_eq!(
        conn.step(Event::Inbound { frame: Frame::Ping(vec![5]), now: 10 }),
        vec![Action::SendPong(vec![5])]
    );
    assert_eq!(
        conn.step(Event::Outbound(WsMessage(String::from("m")))),
        vec![Action::SendText(String::from("m"))]
    );
    assert_eq!(conn.step(Event::Heartbeat { now: 20 }), vec![Action::SendPing(b"PING".to_vec())]);
    assert_eq!(conn.step(Event::JoinOutcome { accepted: false }), vec![Action::Stop]);
    assert_eq!(conn.step(Event::Stopping), vec![Action::Leave { id: S, room: R }]);
    assert_eq!(conn.phase(), Phase::Terminated);
}

#[test]
fn scenario_ping_then_silence_until_timeout() {
    let mut conn = WsConn::with_identity(S, R, 0);
    assert_eq!(
        conn.started(),
        vec![Action::StartHeartbeat { period: 5_000 }, Action::Join { id: S, room: R }]
    );
    assert_eq!(conn.join_outcome(true), vec![]);
    assert_eq!(
        conn.handle(Frame::Ping(b"c".to_vec()), 4_000),
        vec![Action::SendPong(b"c".to_vec())]
    );
    assert_eq!(conn.last_heartbeat(), 4_000);
    assert_eq!(conn.hb(5_000), vec![Action::SendPing(b"PING".to_vec())]);
    assert_eq!(conn.hb(10_000), vec![Action::SendPing(b"PING".to_vec())]);
    assert_eq!(conn.phase(), Phase::Active);
    assert_eq!(conn.hb(15_000), vec![Action::Leave { id: S, room: R }, Action::Stop]);
    assert_eq!(conn.phase(), Phase::Closing);
    assert_eq!(conn.stopping(), vec![]);
    assert_eq!(conn.phase(), Phase::Terminated);
}

#[test]
fn scenario_text_while_active_is_relayed() {
    let mut conn = joined(0);
    assert_eq!(
        conn.handle(Frame::Text(String::from("hello")), 1_000),
        vec![Action::Relay { id: S, room: R, text: String::from("hello") }]
    );
}

#[test]
fn scenario_delivery_reaches_the_transport() {
    let mut conn = joined(0);
    assert_eq!(
        conn.handle_message(WsMessage(String::from("hi there"))),
        vec![Action::SendText(String::from("hi there"))]
    );
}

#[test]
fn a_silent_peer_is_gone_within_one_period_after_the_timeout() {
    for first_tick in 0..HEARTBEAT_INTERVAL {
        let mut conn = joined(0);
        let mut now = first_tick;
        let mut torn_down_at = None;
        while torn_down_at.is_none() {
            let actions = conn.hb(now);
            if actions == vec![Action::Leave { id: S, room: R }, Action::Stop] {
                torn_down_at = Some(now);
            } else {
                assert_eq!(actions, vec![Action::SendPing(b"PING".to_vec())]);
                now += HEARTBEAT_INTERVAL;
            }
        }
        let at = torn_down_at.unwrap();
        assert!(at > CLIENT_TIMEOUT);
        assert!(at <= CLIENT_TIMEOUT + HEARTBEAT_INTERVAL);
    }
}
