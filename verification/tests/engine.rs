use msgpack_rpc::message::{Message, Notification, Request, Response};
use msgpack_rpc::server::{Action, Protocol};
use msgpack_rpc::value::Val;

fn request(id: u32) -> Message {
    Message::Request(Request { id, method: "work".to_string(), params: Vec::new() })
}

#[test]
fn dispatch_hands_back_the_request_under_a_fresh_token() {
    let mut engine = Protocol::new();
    match engine.handle_msg(request(9)) {
        Action::StartRequest { token, request } => {
            assert_eq!(token, 0);
            assert_eq!(request.id, 9);
            assert_eq!(request.method, "work");
        },
        _ => panic!("a request must dispatch"),
    }
    assert_eq!(engine.dispatch_count(), 1);
    assert!(!engine.is_idle());
}

#[test]
fn responses_from_the_peer_are_discarded() {
    let mut engine = Protocol::new();
    let msg = Message::Response(Response { id: 1, result: Ok(Val::Nil) });
    assert!(matches!(engine.handle_msg(msg), Action::Discard));
    assert!(engine.is_idle());
}

#[test]
fn completion_rewrites_the_response_id() {
    let mut engine = Protocol::new();
    engine.handle_msg(request(3));
    let service_reply = Response { id: 999, result: Ok(Val::UInt(7)) };
    assert!(engine.complete_request(3, 0, Ok(service_reply)));
    let sent = engine.pop_outbound().unwrap();
    assert_eq!(sent, Message::Response(Response { id: 3, result: Ok(Val::UInt(7)) }));
    assert!(engine.is_idle());
}

#[test]
fn application_error_becomes_a_failure_response() {
    let mut engine = Protocol::new();
    engine.handle_msg(request(4));
    assert!(engine.complete_request(4, 0, Err(Val::Text("oops".to_string()))));
    let sent = engine.pop_outbound().unwrap();
    assert_eq!(
        sent,
        Message::Response(Response { id: 4, result: Err(Val::Text("oops".to_string())) }),
    );
}

#[test]
fn a_slow_request_does_not_block_another() {
    let mut engine = Protocol::new();
    engine.handle_msg(request(1));
    engine.handle_msg(request(2));
    // The first operation never completes; the second finishes now.
    assert!(engine.complete_request(2, 1, Ok(Response { id: 2, result: Ok(Val::Bool(true)) })));
    let sent = engine.pop_outbound().unwrap();
    assert_eq!(sent, Message::Response(Response { id: 2, result: Ok(Val::Bool(true)) }));
    assert!(engine.pop_outbound().is_none());
    assert!(!engine.is_idle());
    // The first can still complete later, under its own token.
    assert!(engine.complete_request(1, 0, Ok(Response { id: 1, result: Ok(Val::Nil) })));
    assert_eq!(
        engine.pop_outbound().unwrap(),
        Message::Response(Response { id: 1, result: Ok(Val::Nil) }),
    );
}

#[test]
fn reused_id_abandons_the_old_operation() {
    let mut engine = Protocol::new();
    engine.handle_msg(request(7));
    engine.handle_msg(request(7));
    // The first dispatch's completion arrives under its stale token.
    assert!(!engine.complete_request(7, 0, Ok(Response { id: 7, result: Ok(Val::UInt(1)) })));
    assert!(engine.pop_outbound().is_none());
    // The replacement completes under the current token.
    assert!(engine.complete_request(7, 1, Ok(Response { id: 7, result: Ok(Val::UInt(2)) })));
    assert_eq!(
        engine.pop_outbound().unwrap(),
        Message::Response(Response { id: 7, result: Ok(Val::UInt(2)) }),
    );
}

#[test]
fn completion_for_an_unknown_id_is_dropped() {
    let mut engine = Protocol::new();
    assert!(!engine.complete_request(12, 0, Ok(Response { id: 12, result: Ok(Val::Nil) })));
    assert!(engine.pop_outbound().is_none());
}

#[test]
fn notifications_are_counted_and_completed() {
    let mut engine = Protocol::new();
    let note = Message::Notification(Notification { method: "n".to_string(), params: Vec::new() });
    match engine.handle_msg(note) {
        Action::StartNotification { notification } => assert_eq!(notification.method, "n"),
        _ => panic!("a notification must dispatch"),
    }
    assert_eq!(engine.notification_count(), 1);
    assert!(!engine.is_idle());
    engine.complete_notification();
    assert_eq!(engine.notification_count(), 0);
    assert!(engine.is_idle());
}

#[test]
fn backpressure_puts_a_message_back_in_front() {
    let mut engine = Protocol::new();
    engine.handle_msg(request(1));
    engine.handle_msg(request(2));
    engine.complete_request(1, 0, Ok(Response { id: 1, result: Ok(Val::UInt(10)) }));
    engine.complete_request(2, 1, Ok(Response { id: 2, result: Ok(Val::UInt(20)) }));
    let first = engine.pop_outbound().unwrap();
    // The sink would not take it: put it back; order is kept.
    engine.push_front_outbound(first);
    assert_eq!(
        engine.pop_outbound().unwrap(),
        Message::Response(Response { id: 1, result: Ok(Val::UInt(10)) }),
    );
    assert_eq!(
        engine.pop_outbound().unwrap(),
        Message::Response(Response { id: 2, result: Ok(Val::UInt(20)) }),
    );
    assert!(engine.pop_outbound().is_none());
}
