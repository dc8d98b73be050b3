use relay::access::{AccessControl, AccessControlOp};
use relay::accept::{accept_connection, AcceptAction, AcceptConnectionError, AcceptEvent, AcceptPhase};
use relay::codec::{
    deserialize_incoming_connection, deserialize_init_connection, deserialize_reject_connection,
    serialize_incoming_connection, serialize_init_connection, serialize_reject_connection,
    InitConnection, IncomingConnection, RejectConnection,
};
use relay::listener::{
    client_listener, server_frame_event, ClientListenerError, ClientListenerEvent, Listener,
    ListenerAction, ListenerInput, ListenerPhase,
};
use relay::peer::{PeerId, PEER_ID_LEN};
use relay::timeout::{connect_with_timeout, ConnectTimeout, RaceEvent, RaceOutcome};

fn peer(b: u8) -> PeerId {
    PeerId::new([b; PEER_ID_LEN])
}

fn running_listener(allowed: &[PeerId]) -> Listener {
    let mut access = AccessControl::new();
    for p in allowed {
        access.apply_op(AccessControlOp::Add(*p)).unwrap();
    }
    let (mut listener, _) = client_listener(access, 8, 16);
    listener.step(ListenerInput::Timer(true));
    listener.step(ListenerInput::Control(true));
    listener.step(ListenerInput::ListenSent(true));
    assert_eq!(listener.phase(), ListenerPhase::Running);
    listener
}

fn incoming(p: &PeerId) -> ListenerInput {
    let frame = serialize_incoming_connection(&IncomingConnection { peer: *p });
    ListenerInput::Event(server_frame_event(&frame))
}

fn expect_terminate(action: ListenerAction, e: ClientListenerError) {
    match action {
        ListenerAction::Terminate(got) => assert_eq!(got, e),
        other => panic!("unexpected action {:?}", other),
    }
}

fn expect_reject_of(action: ListenerAction, p: &PeerId) {
    match action {
        ListenerAction::SendControl(frame) => {
            assert_eq!(deserialize_reject_connection(&frame).unwrap().peer, *p);
        }
        other => panic!("unexpected action {:?}", other),
    }
}

#[test]
fn zero_budget_times_out_without_a_ready_connector() {
    assert_eq!(connect_with_timeout(0, &vec![]), RaceOutcome::TimedOut);
    assert_eq!(connect_with_timeout(0, &vec![RaceEvent::Tick]), RaceOutcome::TimedOut);
    assert_eq!(connect_with_timeout(0, &vec![RaceEvent::Connected]), RaceOutcome::Connected);
}

#[test]
fn budget_not_yet_spent_keeps_waiting() {
    let ticks = vec![RaceEvent::Tick; 7];
    assert_eq!(connect_with_timeout(8, &ticks), RaceOutcome::Waiting);
    let mut late = ticks.clone();
    late.push(RaceEvent::Connected);
    assert_eq!(connect_with_timeout(8, &late), RaceOutcome::Connected);
}

#[test]
fn connector_after_spent_budget_loses() {
    let mut evs = vec![RaceEvent::Tick; 8];
    evs.push(RaceEvent::Connected);
    assert_eq!(connect_with_timeout(8, &evs), RaceOutcome::TimedOut);
}

#[test]
fn ended_tick_stream_and_refusal() {
    assert_eq!(connect_with_timeout(8, &vec![RaceEvent::Tick, RaceEvent::TicksEnded]), RaceOutcome::TimedOut);
    assert_eq!(connect_with_timeout(8, &vec![RaceEvent::Refused]), RaceOutcome::Refused);
}

#[test]
fn connect_timeout_machine_steps() {
    let mut race = ConnectTimeout::new(2);
    assert_eq!(race.outcome(), RaceOutcome::Waiting);
    assert_eq!(race.step(RaceEvent::Tick), RaceOutcome::Waiting);
    assert_eq!(race.step(RaceEvent::Tick), RaceOutcome::TimedOut);
    assert_eq!(race.step(RaceEvent::Connected), RaceOutcome::TimedOut);
}

fn accept_failure(events: &[AcceptEvent], failing: AcceptEvent, expected: AcceptConnectionError) {
    let p = peer(0x42);
    let (mut task, _) = accept_connection(p, 8, 16);
    for ev in events {
        task.step(*ev);
    }
    match task.step(failing) {
        AcceptAction::SendFeedback(fed_back) => assert_eq!(fed_back, p),
        other => panic!("unexpected action {:?}", other),
    }
    assert!(task.expects(AcceptEvent::Feedback(true)));
    match task.step(AcceptEvent::Feedback(true)) {
        AcceptAction::Finish(Err(e)) => assert_eq!(e, expected),
        other => panic!("unexpected action {:?}", other),
    }
    assert_eq!(task.phase(), AcceptPhase::Failed(expected));
}

#[test]
fn accept_timer_refused_hands_peer_back() {
    accept_failure(&[], AcceptEvent::Timer(false), AcceptConnectionError::RequestTimerStreamError);
}

#[test]
fn accept_connect_failed_hands_peer_back() {
    accept_failure(&[AcceptEvent::Timer(true)], AcceptEvent::Connect(false), AcceptConnectionError::ConnectionFailed);
}

#[test]
fn accept_send_failed_hands_peer_back() {
    accept_failure(
        &[AcceptEvent::Timer(true), AcceptEvent::Connect(true)],
        AcceptEvent::AcceptSent(false),
        AcceptConnectionError::SendInitConnectionError,
    );
}

#[test]
fn accept_keepalive_timer_refused_hands_peer_back() {
    accept_failure(
        &[AcceptEvent::Timer(true), AcceptEvent::Connect(true), AcceptEvent::AcceptSent(true)],
        AcceptEvent::Timer(false),
        AcceptConnectionError::RequestTimerStreamError,
    );
}

#[test]
fn accept_delivery_failure_hands_nothing_back() {
    let (mut task, _) = accept_connection(peer(1), 8, 16);
    task.step(AcceptEvent::Timer(true));
    task.step(AcceptEvent::Connect(true));
    task.step(AcceptEvent::AcceptSent(true));
    task.step(AcceptEvent::Timer(true));
    match task.step(AcceptEvent::Delivered(false)) {
        AcceptAction::Finish(Err(e)) => assert_eq!(e, AcceptConnectionError::SendConnPairError),
        other => panic!("unexpected action {:?}", other),
    }
    assert!(!task.expects(AcceptEvent::Feedback(true)));
}

#[test]
fn accept_closed_feedback_channel() {
    let (mut task, _) = accept_connection(peer(1), 8, 16);
    task.step(AcceptEvent::Timer(false));
    match task.step(AcceptEvent::Feedback(false)) {
        AcceptAction::Finish(Err(e)) => assert_eq!(e, AcceptConnectionError::PendingRejectSenderError),
        other => panic!("unexpected action {:?}", other),
    }
    assert!(!task.expects(AcceptEvent::Delivered(true)));
}

#[test]
fn listener_startup_failures() {
    let (mut l, _) = client_listener(AccessControl::new(), 8, 16);
    expect_terminate(l.step(ListenerInput::Timer(false)), ClientListenerError::RequestTimerStreamError);

    let (mut l, _) = client_listener(AccessControl::new(), 8, 16);
    l.step(ListenerInput::Timer(true));
    expect_terminate(l.step(ListenerInput::Control(false)), ClientListenerError::ConnectionFailure);

    let (mut l, _) = client_listener(AccessControl::new(), 8, 16);
    l.step(ListenerInput::Timer(true));
    l.step(ListenerInput::Control(true));
    expect_terminate(l.step(ListenerInput::ListenSent(false)), ClientListenerError::SendInitConnectionError);
}

#[test]
fn listener_rejects_disallowed_peer() {
    let a = peer(0xaa);
    let b = peer(0xbb);
    let mut l = running_listener(&[a]);
    expect_reject_of(l.step(incoming(&b)), &b);
    assert!(!l.expects(incoming(&a)));
    assert!(l.expects(ListenerInput::RejectSent(true)));
    expect_terminate(l.step(ListenerInput::RejectSent(false)), ClientListenerError::SendToServerError);
}

#[test]
fn listener_spawns_for_allowed_peer() {
    let a = peer(0xaa);
    let mut l = running_listener(&[a]);
    assert!(matches!(l.step(incoming(&a)), ListenerAction::SpawnAccept(p, 8, 16) if p == a));
    expect_terminate(l.step(ListenerInput::Spawned(false)), ClientListenerError::SpawnError);
}

#[test]
fn listener_rejects_peer_handed_back() {
    let a = peer(0xaa);
    let mut l = running_listener(&[a]);
    expect_reject_of(l.step(ListenerInput::Event(ClientListenerEvent::PendingReject(a))), &a);
    assert!(matches!(l.step(ListenerInput::RejectSent(true)), ListenerAction::NextEvent));
}

#[test]
fn listener_terminal_on_relay_close() {
    let mut l = running_listener(&[]);
    expect_terminate(l.step(ListenerInput::Event(ClientListenerEvent::ServerClosed)), ClientListenerError::ServerClosed);
    assert_eq!(l.phase(), ListenerPhase::Terminated(ClientListenerError::ServerClosed));
    assert!(!l.expects(ListenerInput::Event(ClientListenerEvent::AccessControlClosed)));
}

#[test]
fn listener_terminal_on_access_close() {
    let mut l = running_listener(&[]);
    expect_terminate(
        l.step(ListenerInput::Event(ClientListenerEvent::AccessControlClosed)),
        ClientListenerError::AccessControlClosed,
    );
}

#[test]
fn malformed_relay_frame_closes_relay_stream() {
    assert!(matches!(server_frame_event(&vec![1, 2, 3]), ClientListenerEvent::ServerClosed));
    let mut l = running_listener(&[]);
    let ev = server_frame_event(&vec![]);
    expect_terminate(l.step(ListenerInput::Event(ev)), ClientListenerError::ServerClosed);
}

#[test]
fn listener_access_changes_apply_in_order() {
    let a = peer(0xaa);
    let mut l = running_listener(&[]);
    l.step(ListenerInput::Event(ClientListenerEvent::AccessControlOp(AccessControlOp::Add(a))));
    l.step(ListenerInput::Event(ClientListenerEvent::AccessControlOp(AccessControlOp::Remove(a))));
    assert!(!l.access_control().is_allowed(&a));
    expect_reject_of(l.step(incoming(&a)), &a);
}

#[test]
fn access_ops() {
    let a = peer(1);
    let b = peer(2);
    let mut acl = AccessControl::new();
    assert!(!acl.is_allowed(&a));
    acl.apply_op(AccessControlOp::Add(a)).unwrap();
    acl.apply_op(AccessControlOp::Add(a)).unwrap();
    acl.apply_op(AccessControlOp::Add(b)).unwrap();
    assert!(acl.is_allowed(&a) && acl.is_allowed(&b));
    acl.apply_op(AccessControlOp::Remove(a)).unwrap();
    assert!(!acl.is_allowed(&a) && acl.is_allowed(&b));
    acl.apply_op(AccessControlOp::Remove(a)).unwrap();
    assert!(!acl.is_allowed(&a));
    acl.apply_op(AccessControlOp::Clear).unwrap();
    assert!(!acl.is_allowed(&b));
}

#[test]
fn init_frames_layout_and_round_trip() {
    let p = peer(0x77);
    assert_eq!(serialize_init_connection(&InitConnection::Listen), vec![0u8]);
    let accept = serialize_init_connection(&InitConnection::Accept(p));
    assert_eq!(accept.len(), 1 + PEER_ID_LEN);
    assert_eq!(accept[0], 1);
    assert!(accept[1..].iter().all(|b| *b == 0x77));
    let reject = serialize_init_connection(&InitConnection::Reject(p));
    assert_eq!(reject[0], 2);
    assert!(matches!(deserialize_init_connection(&accept), Some(InitConnection::Accept(q)) if q == p));
    assert!(matches!(deserialize_init_connection(&reject), Some(InitConnection::Reject(q)) if q == p));
    assert!(deserialize_init_connection(&vec![3u8]).is_none());
    assert!(deserialize_init_connection(&vec![0u8, 0u8]).is_none());
}

#[test]
fn peer_record_frames_round_trip() {
    let p = peer(0x5a);
    let f = serialize_incoming_connection(&IncomingConnection { peer: p });
    assert_eq!(f, vec![0x5a; PEER_ID_LEN]);
    assert_eq!(deserialize_incoming_connection(&f).unwrap().peer, p);
    let r = serialize_reject_connection(&RejectConnection { peer: p });
    assert_eq!(deserialize_reject_connection(&r).unwrap().peer, p);
    assert!(deserialize_reject_connection(&vec![0; PEER_ID_LEN - 1]).is_none());
}

#[test]
fn peer_identity_equality() {
    let mut bytes = [9u8; PEER_ID_LEN];
    let a = PeerId::new(bytes);
    bytes[PEER_ID_LEN - 1] = 8;
    let b = PeerId::new(bytes);
    assert!(a.same(&a));
    assert!(!a.same(&b));
    assert_ne!(a, b);
}
