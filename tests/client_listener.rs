use relay::access::{AccessControl, AccessControlOp};
use relay::accept::{accept_connection, AcceptAction, AcceptEvent, AcceptPhase};
use relay::codec::{
    deserialize_init_connection, deserialize_reject_connection, serialize_incoming_connection,
    InitConnection, IncomingConnection,
};
use relay::listener::{
    client_listener, server_frame_event, ClientListenerEvent, Listener, ListenerAction,
    ListenerInput,
};
use relay::peer::{PeerId, PEER_ID_LEN};
use relay::timeout::{connect_with_timeout, RaceEvent, RaceOutcome};

fn incoming_event(peer: &PeerId) -> ClientListenerEvent {
    let frame = serialize_incoming_connection(&IncomingConnection { peer: *peer });
    server_frame_event(&frame)
}

fn started_listener(access: AccessControl) -> Listener {
    let (mut listener, action) = client_listener(access, 8, 16);
    assert!(matches!(action, ListenerAction::RequestTimer));
    assert!(matches!(listener.step(ListenerInput::Timer(true)), ListenerAction::ConnectControl));
    match listener.step(ListenerInput::Control(true)) {
        ListenerAction::SendControl(frame) => {
            assert!(matches!(deserialize_init_connection(&frame), Some(InitConnection::Listen)));
        }
        other => panic!("unexpected action {:?}", other),
    }
    assert!(matches!(listener.step(ListenerInput::ListenSent(true)), ListenerAction::NextEvent));
    listener
}

#[test]
fn test_connect_with_timeout_basic() {
    let conn_timeout_ticks = 8;
    assert_eq!(connect_with_timeout(conn_timeout_ticks, &vec![RaceEvent::Connected]), RaceOutcome::Connected);
}

#[test]
fn test_connect_with_timeout_timeout() {
    let conn_timeout_ticks = 8;
    let ticks = vec![RaceEvent::Tick; 8];
    assert_eq!(connect_with_timeout(conn_timeout_ticks, &ticks), RaceOutcome::TimedOut);
}

#[test]
fn test_accept_connection_basic() {
    let public_key = PeerId::new([0x77; PEER_ID_LEN]);
    let conn_timeout_ticks = 8;
    let keepalive_ticks = 16;
    let (mut task, action) = accept_connection(public_key, conn_timeout_ticks, keepalive_ticks);
    assert!(matches!(action, AcceptAction::RequestTimer));
    assert!(matches!(task.step(AcceptEvent::Timer(true)), AcceptAction::Connect(8)));
    match task.step(AcceptEvent::Connect(true)) {
        AcceptAction::SendAccept(frame) => match deserialize_init_connection(&frame) {
            Some(InitConnection::Accept(accept_public_key)) => assert_eq!(accept_public_key, public_key),
            _ => unreachable!(),
        },
        other => panic!("unexpected action {:?}", other),
    }
    assert!(matches!(task.step(AcceptEvent::AcceptSent(true)), AcceptAction::RequestTimer));
    match task.step(AcceptEvent::Timer(true)) {
        AcceptAction::Deliver(accepted_public_key, ticks) => {
            assert_eq!(accepted_public_key, public_key);
            assert_eq!(ticks, 16);
        }
        other => panic!("unexpected action {:?}", other),
    }
    assert!(matches!(task.step(AcceptEvent::Delivered(true)), AcceptAction::Finish(Ok(()))));
    assert_eq!(task.phase(), AcceptPhase::Succeeded);
}

#[test]
fn test_client_listener_basic() {
    let mut listener = started_listener(AccessControl::new());

    let public_key_a = PeerId::new([0xaa; PEER_ID_LEN]);
    let add = ListenerInput::Event(ClientListenerEvent::AccessControlOp(AccessControlOp::Add(public_key_a)));
    assert!(matches!(listener.step(add), ListenerAction::NextEvent));

    let public_key_b = PeerId::new([0xbb; PEER_ID_LEN]);
    match listener.step(ListenerInput::Event(incoming_event(&public_key_b))) {
        ListenerAction::SendControl(frame) => {
            let reject_connection = deserialize_reject_connection(&frame).unwrap();
            assert_eq!(reject_connection.peer, public_key_b);
        }
        other => panic!("unexpected action {:?}", other),
    }
    assert!(matches!(listener.step(ListenerInput::RejectSent(true)), ListenerAction::NextEvent));

    let accepted = match listener.step(ListenerInput::Event(incoming_event(&public_key_a))) {
        ListenerAction::SpawnAccept(peer, conn_timeout_ticks, keepalive_ticks) => {
            assert_eq!(peer, public_key_a);
            assert_eq!(conn_timeout_ticks, 8);
            assert_eq!(keepalive_ticks, 16);
            peer
        }
        other => panic!("unexpected action {:?}", other),
    };
    assert!(matches!(listener.step(ListenerInput::Spawned(true)), ListenerAction::NextEvent));

    let (mut task, _) = accept_connection(accepted, 8, 16);
    task.step(AcceptEvent::Timer(true));
    match task.step(AcceptEvent::Connect(true)) {
        AcceptAction::SendAccept(frame) => match deserialize_init_connection(&frame) {
            Some(InitConnection::Accept(accepted_public_key)) => assert_eq!(accepted_public_key, public_key_a),
            _ => unreachable!(),
        },
        other => panic!("unexpected action {:?}", other),
    }
}
