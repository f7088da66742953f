use serde_json::Value;
use spooderfy::opcodes::{OP_MESSAGE, OP_NEXT, OP_PLAY};
use spooderfy::websocket::ws::{InternalWebSocket, Lifecycle, RETRY_LIMIT};
use spooderfy::websocket::{Subscriber, WebsocketMessage, WebsocketStatus, WrappingWsMessage};

fn frame(opcode: usize, payload: Option<Value>) -> Option<WrappingWsMessage> {
    Some(WrappingWsMessage { opcode, payload })
}

fn chat_payload() -> Value {
    let mut m = serde_json::Map::new();
    m.insert("username".to_string(), Value::String("a".to_string()));
    m.insert("avatar".to_string(), Value::String("b".to_string()));
    m.insert("content".to_string(), Value::String("c".to_string()));
    Value::Object(m)
}

#[test]
fn subscriber_keeps_last_callback_per_opcode() {
    let mut sub = Subscriber::new();
    assert_eq!(sub.emit_status(), None);
    assert_eq!(sub.emit_message(OP_MESSAGE), None);
    sub.set_status_cb(4);
    sub.set_status_cb(9);
    assert_eq!(sub.emit_status(), Some(9));
    sub.subscribe(OP_MESSAGE, 11);
    sub.subscribe(OP_PLAY, 12);
    sub.subscribe(OP_MESSAGE, 13);
    assert_eq!(sub.emit_message(OP_MESSAGE), Some(13));
    assert_eq!(sub.emit_message(OP_PLAY), Some(12));
    assert_eq!(sub.emit_message(OP_NEXT), None);
}

#[test]
fn only_last_registration_fires() {
    let mut ws = InternalWebSocket::connect("wss://relay/room".to_string());
    ws.subscribe_to_message(1, OP_MESSAGE, 100);
    ws.subscribe_to_message(1, OP_MESSAGE, 101);
    ws.subscribe_to_message(1, OP_MESSAGE, 102);
    let d = ws.on_message(frame(OP_MESSAGE, None)).unwrap();
    assert_eq!(d.sinks, vec![102]);
    ws.subscribe_to_message(1, OP_MESSAGE, 103);
    let d = ws.on_message(frame(OP_MESSAGE, None)).unwrap();
    assert_eq!(d.sinks, vec![103]);
}

#[test]
fn unsubscribed_opcode_goes_nowhere() {
    let mut ws = InternalWebSocket::connect("wss://relay/room".to_string());
    ws.subscribe_to_message(1, OP_MESSAGE, 100);
    let d = ws.on_message(frame(OP_NEXT, Some(Value::Bool(true)))).unwrap();
    assert_eq!(d.opcode, OP_NEXT);
    assert!(d.sinks.is_empty());
    let d = ws.on_message(frame(OP_MESSAGE, None)).unwrap();
    assert_eq!(d.sinks, vec![100]);
}

#[test]
fn undecodable_frame_is_dropped() {
    let mut ws = InternalWebSocket::connect("wss://relay/room".to_string());
    ws.subscribe_to_message(1, OP_MESSAGE, 100);
    assert!(ws.on_message(None).is_none());
    // the registration is still pending and applies at the next frame
    let d = ws.on_message(frame(OP_MESSAGE, None)).unwrap();
    assert_eq!(d.sinks, vec![100]);
    assert_eq!(ws.lifecycle().current, None);
}

#[test]
fn reconnect_budget_after_successful_connect() {
    let mut ws = InternalWebSocket::connect("wss://relay/room".to_string());
    ws.subscribe_to_status(0, 7);
    let b = ws.on_connect().unwrap();
    assert_eq!(b.status, WebsocketStatus::Connect);
    assert_eq!(b.sinks, vec![7]);
    let expected = [
        (WebsocketStatus::Disconnect, true, 1),
        (WebsocketStatus::Disconnect, true, 2),
        (WebsocketStatus::Disconnect, true, 3),
        (WebsocketStatus::ClosedPermanently, false, 4),
    ];
    for (status, reopen, attempt) in expected {
        let out = ws.on_disconnect();
        assert_eq!(out.broadcast.status, status);
        assert_eq!(out.broadcast.sinks, vec![7]);
        assert_eq!(out.reopen, reopen);
        assert_eq!(ws.lifecycle().retry_attempt, attempt);
    }
    assert!(ws.lifecycle().retry_attempt > RETRY_LIMIT);
    // no fifth attempt, and the state is final
    let out = ws.on_disconnect();
    assert_eq!(out.broadcast.status, WebsocketStatus::ClosedPermanently);
    assert!(!out.reopen);
    assert!(ws.on_connect().is_none());
    assert_eq!(ws.lifecycle().current, Some(WebsocketStatus::ClosedPermanently));
}

#[test]
fn first_connect_failure_is_not_retried() {
    let mut ws = InternalWebSocket::connect("wss://relay/room".to_string());
    ws.subscribe_to_status(0, 7);
    let out = ws.on_disconnect();
    assert_eq!(out.broadcast.status, WebsocketStatus::Disconnect);
    assert_eq!(out.broadcast.sinks, vec![7]);
    assert!(!out.reopen);
    assert!(ws.lifecycle().connecting_first);
}

#[test]
fn error_event_changes_nothing() {
    let mut ws = InternalWebSocket::connect("wss://relay/room".to_string());
    ws.on_error();
    assert_eq!(ws.lifecycle(), Lifecycle::initial());
    assert!(!ws.on_disconnect().reopen);
}

#[test]
fn reconnect_count_restarts_on_open() {
    let mut ws = InternalWebSocket::connect("wss://relay/room".to_string());
    ws.on_connect();
    ws.on_disconnect();
    ws.on_disconnect();
    ws.on_connect();
    assert_eq!(ws.lifecycle().retry_attempt, 0);
    for _ in 0..3 {
        assert!(ws.on_disconnect().reopen);
    }
    assert_eq!(ws.on_disconnect().broadcast.status, WebsocketStatus::ClosedPermanently);
}

#[test]
fn status_registration_in_same_tick_hears_change() {
    let mut ws = InternalWebSocket::connect("wss://relay/room".to_string());
    ws.subscribe_to_status(0, 1);
    ws.subscribe_to_status(2, 3);
    ws.subscribe_to_status(0, 5);
    let b = ws.on_connect().unwrap();
    assert_eq!(b.sinks, vec![5, 3]);
    assert_eq!(ws.url(), "wss://relay/room");
}

#[test]
fn message_round_trip_through_the_wire() {
    let payload = chat_payload();
    let mut envelope = serde_json::Map::new();
    envelope.insert("opcode".to_string(), Value::from(OP_MESSAGE as u64));
    envelope.insert("payload".to_string(), payload.clone());
    let text = serde_json::to_string(&Value::Object(envelope)).unwrap();

    let decoded: Value = serde_json::from_str(&text).unwrap();
    let opcode = decoded.get("opcode").and_then(Value::as_u64).unwrap() as usize;
    let body = decoded.get("payload").cloned();

    let mut ws = InternalWebSocket::connect("wss://relay/room".to_string());
    ws.subscribe_to_message(1, OP_MESSAGE, 42);
    let d = ws.on_message(frame(opcode, body)).unwrap();
    assert_eq!(d.opcode, 5);
    assert_eq!(d.sinks, vec![42]);
    let copy = d.message.clone();
    match copy {
        WebsocketMessage::Payload(v) => assert_eq!(v, payload),
        WebsocketMessage::Empty => panic!("payload lost"),
    }
    assert_eq!(d.message.into_payload(), Some(chat_payload()));
}

#[test]
fn empty_payload_is_delivered_as_empty() {
    let mut ws = InternalWebSocket::connect("wss://relay/room".to_string());
    ws.subscribe_to_message(2, OP_NEXT, 8);
    let d = ws.on_message(frame(OP_NEXT, None)).unwrap();
    assert!(matches!(d.message, WebsocketMessage::Empty));
    assert!(WebsocketMessage::from_payload(None).into_payload().is_none());
}

#[test]
fn fan_out_in_registration_order() {
    let mut ws = InternalWebSocket::connect("wss://relay/room".to_string());
    ws.subscribe_to_message(2, OP_MESSAGE, 20);
    ws.subscribe_to_message(1, OP_MESSAGE, 10);
    let d = ws.on_message(frame(OP_MESSAGE, Some(chat_payload()))).unwrap();
    assert_eq!(d.sinks, vec![20, 10]);
    assert_eq!(d.sinks.len(), 2);
}

#[test]
fn registration_visible_from_next_pass() {
    let mut ws = InternalWebSocket::connect("wss://relay/room".to_string());
    ws.subscribe_to_message(1, OP_MESSAGE, 10);
    let first = ws.on_message(frame(OP_MESSAGE, None)).unwrap();
    // registered while the first pass's callbacks run
    ws.subscribe_to_message(2, OP_MESSAGE, 20);
    assert_eq!(first.sinks, vec![10]);
    let second = ws.on_message(frame(OP_MESSAGE, None)).unwrap();
    assert_eq!(second.sinks, vec![10, 20]);
}

#[test]
fn status_and_message_queues_drain_separately() {
    let mut ws = InternalWebSocket::connect("wss://relay/room".to_string());
    ws.subscribe_to_status(1, 5);
    ws.subscribe_to_message(1, OP_MESSAGE, 6);
    ws.check_status_updates();
    assert_eq!(ws.send_all_status(WebsocketStatus::Disconnect).sinks, vec![5]);
    ws.check_message_updates();
    ws.check_message_updates();
    let d = ws.on_message(frame(OP_MESSAGE, None)).unwrap();
    assert_eq!(d.sinks, vec![6]);
}
