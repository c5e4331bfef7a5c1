use discorsd_games::shard::{
    CloseFrame, GatewayPayload, ShardState, SocketEvent, API_VERSION, CLOSE_ERROR, CLOSE_RESTART,
};

fn ready_shard() -> ShardState {
    let mut s = ShardState::new((0, 1));
    let a = s.handle_payload(GatewayPayload::Hello(41250), 0);
    assert!(a.identify);
    assert!(s.ready_matches(API_VERSION, Some((0, 1))));
    s.ready(API_VERSION, Some((0, 1)), "session".to_string());
    s
}

#[test]
fn hello_identifies_a_new_session_only() {
    let mut s = ready_shard();
    assert_eq!(s.heartbeat_interval, Some(41250));
    let a = s.handle_payload(GatewayPayload::Hello(1), 5);
    assert!(!a.identify);
    assert_eq!(s.heartbeat_interval, Some(41250));
}

#[test]
fn ready_then_dispatch_resumes_there() {
    let mut s = ready_shard();
    assert_eq!(s.resume(), None);
    let a = s.handle_payload(GatewayPayload::Dispatch(1), 0);
    assert_eq!(a.missed, 0);
    let a = s.handle_payload(GatewayPayload::Dispatch(5), 0);
    assert_eq!(a.missed, 3);
    assert_eq!(s.resume(), Some(("session".to_string(), 5)));
}

#[test]
fn heartbeats_and_strikes() {
    let mut s = ready_shard();
    s.handle_payload(GatewayPayload::Dispatch(7), 0);
    let a = s.heartbeat_tick(100);
    assert_eq!(a.send, Some(7));
    assert!(a.close.is_none());
    // not due yet
    let a = s.heartbeat_tick(200);
    assert_eq!(a.send, None);
    s.handle_payload(GatewayPayload::HeartbeatAck, 150);
    let a = s.heartbeat_tick(100 + 41250);
    assert_eq!(a.send, Some(7));
    assert_eq!(s.strikes, 0);
    // no ack for the last heartbeat: strikes add up until the connection is given up
    let a = s.heartbeat_tick(100 + 2 * 41250);
    assert!(a.close.is_none());
    assert_eq!(s.strikes, 1);
    let a = s.heartbeat_tick(100 + 3 * 41250);
    assert!(a.close.is_none());
    assert_eq!(s.strikes, 2);
    let a = s.heartbeat_tick(100 + 4 * 41250);
    let close = a.close.unwrap();
    assert_eq!(close.code, CLOSE_RESTART);
    assert_eq!(close.reason, "ACK not recent enough, closing websocket");
    assert_eq!(s.strikes, 0);
    assert_eq!(s.session_id, None);
    assert!(!s.connected);
}

#[test]
fn reconnect_and_invalid_sessions() {
    let mut s = ready_shard();
    s.connected = true;
    let a = s.handle_payload(GatewayPayload::Reconnect, 0);
    assert!(a.reconnect);
    let (frame, delay) = a.close.unwrap();
    assert_eq!((frame.code, frame.reason.as_str(), delay), (CLOSE_RESTART, "Reconnect requested by Discord", 0));
    assert_eq!(s.session_id.as_deref(), Some("session"));

    let a = s.handle_payload(GatewayPayload::InvalidSession(true), 0);
    assert!(a.reconnect && a.close.is_none());
    assert_eq!(s.session_id.as_deref(), Some("session"));

    let a = s.handle_payload(GatewayPayload::InvalidSession(false), 0);
    let (frame, delay) = a.close.unwrap();
    assert_eq!(frame.reason, "(non-resumable) Invalid Session");
    assert!((1..6).contains(&delay));
    assert_eq!(s.session_id, None);
}

#[test]
fn socket_events_reset_the_connection() {
    let mut s = ready_shard();
    let frame = CloseFrame { code: 4000, reason: "bye".to_string() };
    let f = s.socket_event(SocketEvent::Close(Some(frame)));
    assert_eq!((f.code, f.reason.as_str()), (4000, "bye"));
    assert_eq!(s.session_id, None);
    assert_eq!(s.heartbeat_interval, None);
    let f = s.socket_event(SocketEvent::Close(None));
    assert_eq!(f.reason, "Received `Message::Close` (without a CloseFrame)");
    assert_eq!(s.socket_event(SocketEvent::Ended).reason, "Websocket closed");
    assert_eq!(s.socket_event(SocketEvent::Error).code, CLOSE_ERROR);
}

#[test]
fn ready_must_match_version_and_shard() {
    let s = ShardState::new((0, 0));
    assert!(s.ready_matches(API_VERSION, None));
    assert!(!s.ready_matches(API_VERSION + 1, None));
    assert!(!s.ready_matches(API_VERSION, Some((1, 2))));
}
