use protoo::json::FieldValue;
use protoo::message::{Message, MessageFields, Notification, Request, Response};
use serde_json::Value;

fn obj(text: &str) -> Value {
    serde_json::from_str(text).unwrap()
}

fn fields() -> MessageFields {
    MessageFields {
        request: FieldValue::Missing,
        response: FieldValue::Missing,
        notification: FieldValue::Missing,
        id: FieldValue::Missing,
        method: FieldValue::Missing,
        ok: FieldValue::Missing,
        error_code: FieldValue::Missing,
        error_reason: FieldValue::Missing,
    }
}

#[test]
fn parse_request() {
    let m = Message::parse(r#"{"request":true,"id":12,"method":"greet","data":{"hello":"world"}}"#)
        .expect("a request");
    let r = m.as_request().expect("request");
    assert_eq!(r.id, 12);
    assert_eq!(r.method, "greet");
    assert_eq!(r.data, obj(r#"{"hello":"world"}"#));
    assert!(m.as_response().is_none());
    assert!(m.as_notification().is_none());
    assert_eq!(m.request_id(), Some(12));
}

#[test]
fn parse_request_without_data_gets_empty_object() {
    let m = Message::parse(r#"{"request":true,"id":1,"method":"m"}"#).unwrap();
    assert_eq!(m.as_request().unwrap().data, obj("{}"));
}

#[test]
fn parse_response_defaults() {
    let m = Message::parse(r#"{"response":true,"id":7}"#).unwrap();
    let r = m.as_response().unwrap();
    assert_eq!(r.id, 7);
    assert!(!r.ok);
    assert_eq!(r.error_code, None);
    assert_eq!(r.error_reason, None);
    assert_eq!(r.data, obj("{}"));
}

#[test]
fn parse_error_response() {
    let m = Message::parse(
        r#"{"response":true,"id":7,"ok":false,"error_code":404,"error_reason":"nope","data":null}"#,
    )
    .unwrap();
    let r = m.as_response().unwrap();
    assert_eq!(r.error_code, Some(404));
    assert_eq!(r.error_reason.as_deref(), Some("nope"));
    assert_eq!(r.data, Value::Null);
}

#[test]
fn parse_notification() {
    let m = Message::parse(r#"{"notification":true,"method":"joined","data":{"room":"main"}}"#).unwrap();
    let n = m.as_notification().unwrap();
    assert_eq!(n.method, "joined");
    assert_eq!(n.data, obj(r#"{"room":"main"}"#));
    assert_eq!(m.request_id(), None);
}

#[test]
fn parse_rejects_bad_input() {
    assert!(Message::parse("not json").is_none());
    assert!(Message::parse("[1,2]").is_none());
    assert!(Message::parse("{}").is_none());
    assert!(Message::parse(r#"{"request":false,"id":1,"method":"m"}"#).is_none());
    assert!(Message::parse(r#"{"request":"true","id":1,"method":"m"}"#).is_none());
    assert!(Message::parse(r#"{"request":true,"method":"m"}"#).is_none());
    assert!(Message::parse(r#"{"request":true,"id":-1,"method":"m"}"#).is_none());
    assert!(Message::parse(r#"{"request":true,"id":1.5,"method":"m"}"#).is_none());
    assert!(Message::parse(r#"{"request":true,"id":1,"method":3}"#).is_none());
    assert!(Message::parse(r#"{"response":true,"id":1,"ok":null}"#).is_none());
    assert!(Message::parse(r#"{"response":true,"id":1,"error_code":70000}"#).is_none());
    assert!(Message::parse(r#"{"response":true,"id":1,"error_reason":5}"#).is_none());
    assert!(Message::parse(r#"{"notification":true}"#).is_none());
}

#[test]
fn parse_first_flag_decides() {
    let m = Message::parse(r#"{"response":true,"request":true,"id":3,"method":"m"}"#).unwrap();
    assert!(m.as_request().is_some());
    let m = Message::parse(r#"{"response":true,"notification":true,"id":3,"method":"m"}"#).unwrap();
    assert!(m.as_response().is_some());
}

#[test]
fn decode_fields_directly() {
    let mut f = fields();
    f.response = FieldValue::Bool(true);
    f.id = FieldValue::Unsigned(9);
    f.ok = FieldValue::Bool(true);
    f.error_code = FieldValue::Null;
    f.error_reason = FieldValue::Text("r".to_string());
    let m = Message::decode(f, Some(Value::Bool(true))).unwrap();
    let r = m.as_response().unwrap();
    assert_eq!(r.id, 9);
    assert!(r.ok);
    assert_eq!(r.error_code, None);
    assert_eq!(r.error_reason.as_deref(), Some("r"));
    assert_eq!(r.data, Value::Bool(true));

    let mut f = fields();
    f.response = FieldValue::Bool(true);
    f.id = FieldValue::Unsigned(9);
    f.error_code = FieldValue::Unsigned(65536);
    assert!(Message::decode(f, None).is_none());

    let mut f = fields();
    f.request = FieldValue::Bool(true);
    f.id = FieldValue::Other;
    f.method = FieldValue::Text("m".to_string());
    assert!(Message::decode(f, None).is_none());
}

#[test]
fn create_request_has_small_random_id() {
    for _ in 0..50 {
        let m = Message::create_request("ping".to_string(), None);
        let r = m.as_request().unwrap();
        assert!(1 <= r.id && r.id <= 10_000_000);
        assert_eq!(r.method, "ping");
        assert_eq!(r.data, obj("{}"));
    }
}

#[test]
fn responses_answer_their_request() {
    let request = Request::new(42, "greet".to_string(), Value::Null);
    let ok = Message::create_success_response(&request, Some(obj(r#"{"a":1}"#)));
    let r = ok.as_response().unwrap();
    assert_eq!(r.id, 42);
    assert!(r.ok);
    assert_eq!(r.data, obj(r#"{"a":1}"#));
    assert_eq!(ok.request_id(), Some(42));

    let err = Message::create_error_response(&request, 403, "forbidden".to_string());
    let r = err.as_response().unwrap();
    assert_eq!(r.id, 42);
    assert!(!r.ok);
    assert_eq!(r.error_code, Some(403));
    assert_eq!(r.error_reason.as_deref(), Some("forbidden"));
    assert_eq!(r.data, obj("{}"));
}

#[test]
fn create_notification_default_data() {
    let m = Message::create_notification("joined".to_string(), None);
    let n = m.as_notification().unwrap();
    assert_eq!(n.method, "joined");
    assert_eq!(n.data, obj("{}"));
}

#[test]
fn conversions_round_trip() {
    let request = Request::new(5, "m".to_string(), obj("[1]"));
    let back = Message::from(Request::from(&request)).as_request().unwrap();
    assert_eq!(back.id, request.id);
    assert_eq!(back.method, request.method);
    assert_eq!(back.data, request.data);

    let response = Response::error(6, 500, "boom".to_string());
    let back = Message::from(Response::from(&response)).as_response().unwrap();
    assert_eq!(back.id, 6);
    assert!(!back.ok);
    assert_eq!(back.error_code, Some(500));
    assert_eq!(back.error_reason.as_deref(), Some("boom"));
    assert_eq!(back.data, obj("{}"));

    let ok = Response::ok(8, Value::Bool(false));
    let back = Message::from(ok).as_response().unwrap();
    assert!(back.ok);
    assert_eq!(back.data, Value::Bool(false));

    let n = Notification::new("n".to_string(), Value::Null);
    let back = Message::from(Notification::from(&n)).as_notification().unwrap();
    assert_eq!(back.method, "n");
    assert_eq!(back.data, Value::Null);
}

#[test]
fn parse_of_serialized_request() {
    let mut map = serde_json::Map::new();
    map.insert("request".to_string(), Value::Bool(true));
    map.insert("id".to_string(), Value::from(77u64));
    map.insert("method".to_string(), Value::String("echo".to_string()));
    map.insert("data".to_string(), obj(r#"{"x":[1,2]}"#));
    let text = serde_json::to_string(&Value::Object(map)).unwrap();
    let r = Message::parse(&text).unwrap().as_request().unwrap();
    assert_eq!(r.id, 77);
    assert_eq!(r.method, "echo");
    assert_eq!(r.data, obj(r#"{"x":[1,2]}"#));
}

#[test]
fn default_payload_is_written_as_empty_object() {
    let m = Message::create_notification("n".to_string(), None);
    let n = m.as_notification().unwrap();
    assert_eq!(serde_json::to_string(&n.data).unwrap(), "{}");
    let r = Response::error(1, 2, "x".to_string());
    assert_eq!(serde_json::to_string(&r.data).unwrap(), "{}");
}
