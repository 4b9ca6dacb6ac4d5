use protoo::error::PeerError;
use protoo::message::Message;
use protoo::peer::{plan_request, LinkEvent, PeerState, PeerStep, RequestPlan};
use serde_json::Value;

#[test]
fn request_response_flow_over_states() {
    let mut alice: PeerState<&str> = PeerState::new("alice".to_string());
    let mut bob: PeerState<&str> = PeerState::new("bob".to_string());

    let mut payload = serde_json::Map::new();
    payload.insert("hello".to_string(), Value::String("world".to_string()));
    let payload = Value::Object(payload);

    let message = alice.prepare_request("greet".to_string(), Some(payload.clone())).unwrap();
    let id = message.request_id().unwrap();
    alice.register_pending(id, "waiter");

    let request = match bob.step(LinkEvent::Message(message)) {
        PeerStep::HandleRequest(r) => r,
        _ => panic!("bob expected a request"),
    };
    let request = match plan_request(request, 1) {
        RequestPlan::Dispatch(r) => r,
        _ => panic!("a handler is registered"),
    };
    let mut echo = serde_json::Map::new();
    echo.insert("echo".to_string(), request.data.clone());
    let answer = Message::create_success_response(&request, Some(Value::Object(echo)));

    match alice.step(LinkEvent::Message(answer)) {
        PeerStep::Deliver("waiter", Ok(value)) => assert_eq!(value["echo"], payload),
        _ => panic!("alice expected the answer"),
    }
    assert_eq!(alice.pending_len(), 0);
}

#[test]
fn notification_flow_over_states() {
    let alice: PeerState<()> = PeerState::new("alice".to_string());
    let mut bob: PeerState<()> = PeerState::new("bob".to_string());
    let mut data = serde_json::Map::new();
    data.insert("room".to_string(), Value::String("main".to_string()));
    let message = alice.prepare_notification("joined".to_string(), Some(Value::Object(data))).unwrap();
    match bob.step(LinkEvent::Message(message)) {
        PeerStep::HandleNotification(n) => assert_eq!(n.method, "joined"),
        _ => panic!("bob expected a notification"),
    }
}

#[test]
fn closing_propagates_over_states() {
    let mut alice: PeerState<()> = PeerState::new("alice".to_string());
    let mut bob: PeerState<()> = PeerState::new("bob".to_string());
    assert!(bob.shut_down().is_some());
    // bob's transport closing reaches alice as a closed link.
    assert!(matches!(alice.step(LinkEvent::Closed), PeerStep::Shutdown(d) if d.is_empty()));
    assert!(matches!(alice.prepare_request("ping".to_string(), None), Err(PeerError::Closed)));
}
