use ws_consumer::{
    keepalives_within, ConsumeError, HeartbeatAction, Join, JoinAction, KeyPipe, Task,
    WebsocketConsumer, DEFAULT_HEARTBEAT_INTERVAL,
};

fn consumer() -> WebsocketConsumer {
    WebsocketConsumer::new(
        "wss://example.org/feed".to_string(),
        r#"{"op": "ping"}"#.to_string(),
        r#"{"op": "subscribe", "args": ["trades"]}"#.to_string(),
    )
}

#[test]
fn new_keeps_configuration() {
    let c = consumer();
    assert_eq!(c.url, "wss://example.org/feed");
    assert_eq!(c.heartbeat_msg, r#"{"op": "ping"}"#);
    assert_eq!(c.subscription_message, r#"{"op": "subscribe", "args": ["trades"]}"#);
    assert_eq!(c.heartbeat_interval, 30);
    assert_eq!(DEFAULT_HEARTBEAT_INTERVAL, 30);
}

#[test]
fn heartbeat_interval_is_configurable() {
    let c = consumer().with_heartbeat_interval(5);
    assert_eq!(c.heartbeat_interval, 5);
    assert_eq!(c.url, "wss://example.org/feed");
}

#[test]
fn session_subscribes_once_then_starts_loops() {
    let c = consumer();
    let mut s = c.session();
    assert!(s.is_connecting());
    assert_eq!(s.target(), "wss://example.org/feed");
    let sub = s.on_connected(true).unwrap();
    assert_eq!(sub, r#"{"op": "subscribe", "args": ["trades"]}"#);
    assert!(s.is_subscribing());
    let (rl, mut hb) = s.on_subscribed(true, KeyPipe::new("data".to_string())).unwrap();
    assert!(rl.is_reading());
    assert!(!s.is_subscribing());
    match hb.next() {
        HeartbeatAction::Send(m) => assert_eq!(m, r#"{"op": "ping"}"#),
        other => panic!("unexpected {:?}", other),
    }
}

#[test]
fn failed_connection_is_a_connect_error() {
    let mut s = consumer().session();
    assert_eq!(s.on_connected(false), Err(ConsumeError::Connect));
    assert!(!s.is_connecting());
    assert!(!s.is_subscribing());
}

#[test]
fn failed_subscription_is_a_send_error() {
    let mut s = consumer().session();
    s.on_connected(true).unwrap();
    match s.on_subscribed(false, KeyPipe::new("data".to_string())) {
        Err(e) => assert_eq!(e, ConsumeError::Send),
        Ok(_) => panic!("subscription failure accepted"),
    }
}

#[test]
fn heartbeat_sends_then_sleeps_each_interval() {
    let mut s = consumer().with_heartbeat_interval(30).session();
    s.on_connected(true).unwrap();
    let (_rl, mut hb) = s.on_subscribed(true, KeyPipe::new("data".to_string())).unwrap();
    let mut log = Vec::new();
    for _ in 0..6 {
        match hb.next() {
            HeartbeatAction::Send(m) => {
                log.push(m);
                assert_eq!(hb.on_sent(true), None);
            }
            HeartbeatAction::Sleep(secs) => log.push(format!("sleep {}", secs)),
        }
    }
    let ping = r#"{"op": "ping"}"#.to_string();
    assert_eq!(
        log,
        vec![ping.clone(), "sleep 30".to_string(), ping.clone(), "sleep 30".to_string(), ping, "sleep 30".to_string()]
    );
    assert!(!hb.is_stopped());
}

#[test]
fn heartbeat_stops_on_send_failure() {
    let mut s = consumer().session();
    s.on_connected(true).unwrap();
    let (_rl, mut hb) = s.on_subscribed(true, KeyPipe::new("data".to_string())).unwrap();
    assert!(matches!(hb.next(), HeartbeatAction::Send(_)));
    assert_eq!(hb.on_sent(false), Some(ConsumeError::Send));
    assert!(hb.is_stopped());
}

#[test]
fn keepalive_count_in_window() {
    // sends at 0, 30, 60 and 90
    assert_eq!(keepalives_within(30, 95), 4);
    assert_eq!(keepalives_within(30, 89), 3);
    assert_eq!(keepalives_within(30, 90), 4);
    assert_eq!(keepalives_within(30, 0), 1);
    assert_eq!(keepalives_within(1, u64::MAX), u64::MAX as u128 + 1);
}

#[test]
fn receive_failure_stops_running_heartbeat() {
    let mut j = Join::new();
    let a = j.on_finished(Task::Receive, Err(ConsumeError::Decode));
    assert_eq!(a, JoinAction::Return { cancel: Some(Task::Heartbeat), result: Err(ConsumeError::Decode) });
    assert_eq!(j.outcome_of(), Some(Err(ConsumeError::Decode)));
}

#[test]
fn heartbeat_failure_stops_receive_loop() {
    let mut j = Join::new();
    let a = j.on_finished(Task::Heartbeat, Err(ConsumeError::Send));
    assert_eq!(a, JoinAction::Return { cancel: Some(Task::Receive), result: Err(ConsumeError::Send) });
}

#[test]
fn ended_stream_waits_for_heartbeat() {
    let mut j = Join::new();
    assert_eq!(j.on_finished(Task::Receive, Ok(())), JoinAction::Wait);
    assert!(j.is_done(Task::Receive));
    assert!(!j.is_done(Task::Heartbeat));
    assert_eq!(j.outcome_of(), None);
    let a = j.on_finished(Task::Heartbeat, Err(ConsumeError::Send));
    assert_eq!(a, JoinAction::Return { cancel: None, result: Err(ConsumeError::Send) });
}

#[test]
fn both_loops_succeeding_is_success() {
    let mut j = Join::new();
    assert_eq!(j.on_finished(Task::Heartbeat, Ok(())), JoinAction::Wait);
    assert_eq!(j.on_finished(Task::Receive, Ok(())), JoinAction::Return { cancel: None, result: Ok(()) });
    assert_eq!(j.outcome_of(), Some(Ok(())));
}
