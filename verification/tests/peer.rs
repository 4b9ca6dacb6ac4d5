use protoo::error::{PeerError, TransportError};
use protoo::message::{Message, Request, Response};
use protoo::peer::{plan_request, response_outcome, LinkEvent, PeerState, PeerStep, RequestPlan, RequestProgress};
use serde_json::Value;

fn response_message(id: u64, ok: bool, code: Option<u16>, reason: Option<&str>) -> Message {
    Message::from(Response {
        id,
        ok,
        data: Value::from(id),
        error_code: code,
        error_reason: reason.map(|s| s.to_string()),
    })
}

#[test]
fn new_peer_is_open_and_idle() {
    let p: PeerState<&str> = PeerState::new("alice".to_string());
    assert_eq!(p.id(), "alice");
    assert!(!p.closed());
    assert_eq!(p.pending_len(), 0);
}

#[test]
fn response_settles_its_pending_request_once() {
    let mut p = PeerState::new("a".to_string());
    assert_eq!(p.register_pending(1, "w1"), (1, None));
    assert_eq!(p.register_pending(2, "w2"), (2, None));
    match p.step(LinkEvent::Message(response_message(2, true, None, None))) {
        PeerStep::Deliver(w, Ok(v)) => {
            assert_eq!(w, "w2");
            assert_eq!(v, Value::from(2u64));
        }
        _ => panic!("expected a delivery"),
    }
    assert_eq!(p.pending_len(), 1);
    match p.step(LinkEvent::Message(response_message(2, true, None, None))) {
        PeerStep::Unmatched(2) => {}
        _ => panic!("expected unmatched"),
    }
}

#[test]
fn register_same_id_displaces_waiter() {
    let mut p = PeerState::new("a".to_string());
    p.register_pending(5, "first");
    assert_eq!(p.register_pending(5, "second"), (1, Some("first")));
    assert_eq!(p.remove_pending(5), Some("second"));
    assert_eq!(p.remove_pending(5), None);
}

#[test]
fn rejection_defaults() {
    let r = Response { id: 1, ok: false, data: Value::Null, error_code: None, error_reason: None };
    match response_outcome(r) {
        Err(PeerError::Rejected(e)) => {
            assert_eq!(e.code, 500);
            assert_eq!(e.reason, "Unknown error");
        }
        other => panic!("unexpected {:?}", other),
    }
    let r = Response::error(1, 403, "no".to_string());
    match response_outcome(r) {
        Err(PeerError::Rejected(e)) => {
            assert_eq!(e.code, 403);
            assert_eq!(e.reason, "no");
        }
        other => panic!("unexpected {:?}", other),
    }
}

#[test]
fn closing_fails_all_pending_once() {
    let mut p = PeerState::new("a".to_string());
    p.register_pending(1, "w1");
    p.register_pending(2, "w2");
    p.register_pending(3, "w3");
    let mut drained = match p.step(LinkEvent::Closed) {
        PeerStep::Shutdown(d) => d,
        _ => panic!("expected shutdown"),
    };
    drained.sort();
    assert_eq!(drained, vec![(1, "w1"), (2, "w2"), (3, "w3")]);
    assert!(p.closed());
    assert_eq!(p.pending_len(), 0);
    assert!(matches!(p.step(LinkEvent::Closed), PeerStep::Stop));
    assert!(p.shut_down().is_none());
}

#[test]
fn closed_peer_refuses_requests_and_notifications() {
    let mut p: PeerState<()> = PeerState::new("a".to_string());
    assert!(p.prepare_request("m".to_string(), None).is_ok());
    assert!(p.prepare_notification("n".to_string(), None).is_ok());
    p.shut_down();
    assert!(matches!(p.prepare_request("m".to_string(), None), Err(PeerError::Closed)));
    assert!(matches!(p.prepare_notification("n".to_string(), None), Err(TransportError::Closed)));
}

#[test]
fn events_route_by_kind() {
    let mut p: PeerState<()> = PeerState::new("a".to_string());
    let req = Message::from(Request::new(3, "m".to_string(), Value::Null));
    match p.step(LinkEvent::Message(req)) {
        PeerStep::HandleRequest(r) => assert_eq!((r.id, r.method.as_str()), (3, "m")),
        _ => panic!("expected a request"),
    }
    let n = Message::create_notification("joined".to_string(), None);
    match p.step(LinkEvent::Message(n)) {
        PeerStep::HandleNotification(n) => assert_eq!(n.method, "joined"),
        _ => panic!("expected a notification"),
    }
    assert!(matches!(p.step(LinkEvent::Lagged), PeerStep::Continue));
    assert!(!p.closed());
}

#[test]
fn no_handler_means_rejection() {
    let req = Request::new(9, "m".to_string(), Value::Null);
    match plan_request(req.clone(), 0) {
        RequestPlan::Reject(m) => {
            let r = m.as_response().unwrap();
            assert_eq!(r.id, 9);
            assert!(!r.ok);
            assert_eq!(r.error_code, Some(500));
            assert_eq!(r.error_reason.as_deref(), Some("no request handler registered"));
        }
        _ => panic!("expected a rejection"),
    }
    assert!(matches!(plan_request(req, 2), RequestPlan::Dispatch(r) if r.id == 9));
}

#[test]
fn finishing_requests() {
    let mut p = PeerState::new("a".to_string());
    p.register_pending(1, ());
    let r = p.finish_request(1, RequestProgress::SendFailed(TransportError::Closed));
    assert!(matches!(r, Err(PeerError::Transport(TransportError::Closed))));
    assert_eq!(p.pending_len(), 0);
    p.register_pending(2, ());
    assert!(matches!(p.finish_request(2, RequestProgress::TimedOut), Err(PeerError::Timeout)));
    assert_eq!(p.pending_len(), 0);
    assert!(matches!(p.finish_request(3, RequestProgress::Dropped), Err(PeerError::Closed)));
    let ok = p.finish_request(4, RequestProgress::Answered(Ok(Value::Bool(true))));
    assert_eq!(ok.unwrap(), Value::Bool(true));
}

#[test]
fn close_fires_once_in_any_order() {
    let mut p: PeerState<()> = PeerState::new("a".to_string());
    let mut fired = 0;
    if p.shut_down().is_some() {
        fired += 1;
    }
    if matches!(p.step(LinkEvent::Closed), PeerStep::Shutdown(_)) {
        fired += 1;
    }
    if p.shut_down().is_some() {
        fired += 1;
    }
    assert_eq!(fired, 1);
    assert!(p.closed());

    let mut q: PeerState<()> = PeerState::new("b".to_string());
    assert!(matches!(q.step(LinkEvent::Closed), PeerStep::Shutdown(_)));
    assert!(q.shut_down().is_none());
    assert!(q.closed());
}
