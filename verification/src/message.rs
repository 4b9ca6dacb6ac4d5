//! The messages that peers exchange: requests, responses and notifications,
//! and the wire format they take inside a JSON document.

use vstd::prelude::*;

use crate::json::{
    empty_object, json_member, json_member_value, json_text_is_valid, json_text_of, FieldValue, FieldView, JsonDocument,
};
use crate::utils::random_in_range;

verus! {

/// Representation of a request sent between peers.
#[derive(Debug, Clone)]
pub struct Request {
    pub id: u64,
    pub method: String,
    pub data: serde_json::Value,
}

/// Representation of a response to a request.
#[derive(Debug, Clone)]
pub struct Response {
    pub id: u64,
    pub ok: bool,
    pub data: serde_json::Value,
    pub error_code: Option<u16>,
    pub error_reason: Option<String>,
}

/// Representation of a notification message.
#[derive(Debug, Clone)]
pub struct Notification {
    pub method: String,
    pub data: serde_json::Value,
}

/// A request as it travels on the wire, with its `request` flag.
#[derive(Debug, Clone)]
pub struct InternalRequest {
    pub request: bool,
    pub id: u64,
    pub method: String,
    pub data: serde_json::Value,
}

/// A response as it travels on the wire, with its `response` flag.
#[derive(Debug, Clone)]
pub struct InternalResponse {
    pub response: bool,
    pub id: u64,
    pub ok: bool,
    pub data: serde_json::Value,
    pub error_code: Option<u16>,
    pub error_reason: Option<String>,
}

/// A notification as it travels on the wire, with its `notification` flag.
#[derive(Debug, Clone)]
pub struct InternalNotification {
    pub notification: bool,
    pub method: String,
    pub data: serde_json::Value,
}

/// Top level message wrapper exchanged through transports.
#[derive(Debug, Clone)]
pub enum Message {
    Request(InternalRequest),
    Response(InternalResponse),
    Notification(InternalNotification),
}

/// Everything a message says but its payload.
pub enum MessageHead {
    Request { flag: bool, id: u64, method: Seq<char> },
    Response {
        flag: bool,
        id: u64,
        ok: bool,
        error_code: Option<u16>,
        error_reason: Option<Seq<char>>,
    },
    Notification { flag: bool, method: Seq<char> },
}

/// The top-level members of a document that the message format reads.
#[derive(Debug, Clone)]
pub struct MessageFields {
    pub request: FieldValue,
    pub response: FieldValue,
    pub notification: FieldValue,
    pub id: FieldValue,
    pub method: FieldValue,
    pub ok: FieldValue,
    pub error_code: FieldValue,
    pub error_reason: FieldValue,
}

/// The view of [`MessageFields`].
pub struct MessageFieldsView {
    pub request: FieldView,
    pub response: FieldView,
    pub notification: FieldView,
    pub id: FieldView,
    pub method: FieldView,
    pub ok: FieldView,
    pub error_code: FieldView,
    pub error_reason: FieldView,
}

impl View for MessageFields {
    type V = MessageFieldsView;

    open spec fn view(&self) -> MessageFieldsView {
        MessageFieldsView {
            request: self.request@,
            response: self.response@,
            notification: self.notification@,
            id: self.id@,
            method: self.method@,
            ok: self.ok@,
            error_code: self.error_code@,
            error_reason: self.error_reason@,
        }
    }
}

/// A kind flag counts as set only when it is the boolean `true`.
pub open spec fn flag_set(f: FieldView) -> bool {
    f == FieldView::Bool(true)
}

/// A required identifier: a non-negative integer.
pub open spec fn required_id(f: FieldView) -> Option<u64> {
    match f {
        FieldView::Unsigned(u) => Some(u),
        _ => None,
    }
}

/// A required string.
pub open spec fn required_text(f: FieldView) -> Option<Seq<char>> {
    match f {
        FieldView::Text(s) => Some(s),
        _ => None,
    }
}

/// A boolean that defaults to `false` when absent; `None` when ill-typed.
pub open spec fn defaulted_bool(f: FieldView) -> Option<bool> {
    match f {
        FieldView::Missing => Some(false),
        FieldView::Bool(b) => Some(b),
        _ => None,
    }
}

/// An optional 16-bit code: absent or `null` is none; `None` when ill-typed.
pub open spec fn optional_code(f: FieldView) -> Option<Option<u16>> {
    match f {
        FieldView::Missing => Some(None),
        FieldView::Null => Some(None),
        FieldView::Unsigned(u) => if u <= u16::MAX {
            Some(Some(u as u16))
        } else {
            None
        },
        _ => None,
    }
}

/// An optional string: absent or `null` is none; `None` when ill-typed.
pub open spec fn optional_text(f: FieldView) -> Option<Option<Seq<char>>> {
    match f {
        FieldView::Missing => Some(None),
        FieldView::Null => Some(None),
        FieldView::Text(s) => Some(Some(s)),
        _ => None,
    }
}

/// The message that a document with these members is, if any: the first
/// kind whose flag is set decides, and its members must be well typed.
pub open spec fn decode_head(f: MessageFieldsView) -> Option<MessageHead> {
    if flag_set(f.request) {
        match (required_id(f.id), required_text(f.method)) {
            (Some(id), Some(method)) => Some(MessageHead::Request { flag: true, id, method }),
            _ => None,
        }
    } else if flag_set(f.response) {
        match (required_id(f.id), defaulted_bool(f.ok), optional_code(f.error_code), optional_text(f.error_reason)) {
            (Some(id), Some(ok), Some(error_code), Some(error_reason)) => Some(
                MessageHead::Response { flag: true, id, ok, error_code, error_reason },
            ),
            _ => None,
        }
    } else if flag_set(f.notification) {
        match required_text(f.method) {
            Some(method) => Some(MessageHead::Notification { flag: true, method }),
            None => None,
        }
    } else {
        None
    }
}

/// The members of the JSON document `text` that the message format reads.
pub open spec fn document_fields(text: Seq<char>) -> MessageFieldsView {
    MessageFieldsView {
        request: json_member(text, "request"@),
        response: json_member(text, "response"@),
        notification: json_member(text, "notification"@),
        id: json_member(text, "id"@),
        method: json_member(text, "method"@),
        ok: json_member(text, "ok"@),
        error_code: json_member(text, "error_code"@),
        error_reason: json_member(text, "error_reason"@),
    }
}

/// The `data` member of the JSON document `text`, if it has one.
pub open spec fn document_data(text: Seq<char>) -> Option<serde_json::Value> {
    if json_member(text, "data"@) is Missing {
        None
    } else {
        Some(json_member_value(text, "data"@))
    }
}

/// Whether `payload` is the payload `data` that was given, or, when none
/// was, an empty object, which serde_json writes as `{}`.
pub open spec fn payload_from(data: Option<serde_json::Value>, payload: serde_json::Value) -> bool {
    match data {
        Some(d) => payload == d,
        None => json_text_of(payload) == "{}"@,
    }
}

/// The message that the text `raw` parses to, but for its payload.
pub open spec fn parse_head(raw: Seq<char>) -> Option<MessageHead> {
    if json_text_is_valid(raw) {
        decode_head(document_fields(raw))
    } else {
        None
    }
}

pub open spec fn opt_view(s: Option<String>) -> Option<Seq<char>> {
    match s {
        Some(s) => Some(s@),
        None => None,
    }
}

fn flag_is_set(f: &FieldValue) -> (set: bool)
    ensures
        set == flag_set(f@),
{
    match f {
        FieldValue::Bool(b) => *b,
        _ => false,
    }
}

fn take_id(f: &FieldValue) -> (id: Option<u64>)
    ensures
        id == required_id(f@),
{
    match f {
        FieldValue::Unsigned(u) => Some(*u),
        _ => None,
    }
}

fn take_text(f: FieldValue) -> (text: Option<String>)
    ensures
        opt_view(text) == required_text(f@),
{
    match f {
        FieldValue::Text(s) => Some(s),
        _ => None,
    }
}

fn take_bool(f: &FieldValue) -> (b: Option<bool>)
    ensures
        b == defaulted_bool(f@),
{
    match f {
        FieldValue::Missing => Some(false),
        FieldValue::Bool(b) => Some(*b),
        _ => None,
    }
}

fn take_code(f: &FieldValue) -> (code: Option<Option<u16>>)
    ensures
        code == optional_code(f@),
{
    match f {
        FieldValue::Missing => Some(None),
        FieldValue::Null => Some(None),
        FieldValue::Unsigned(u) => if *u <= 0xffff {
            Some(Some(*u as u16))
        } else {
            None
        },
        _ => None,
    }
}

fn take_optional_text(f: FieldValue) -> (text: Option<Option<String>>)
    ensures
        match (text, optional_text(f@)) {
            (Some(t), Some(v)) => opt_view(t) == v,
            (None, None) => true,
            _ => false,
        },
{
    match f {
        FieldValue::Missing => Some(None),
        FieldValue::Null => Some(None),
        FieldValue::Text(s) => Some(Some(s)),
        _ => None,
    }
}

/// The payload given, or an empty object when none was.
fn payload_or_default(data: Option<serde_json::Value>) -> (value: serde_json::Value)
    ensures
        payload_from(data, value),
{
    match data {
        Some(d) => d,
        None => empty_object(),
    }
}

impl Message {
    /// Everything this message says but its payload.
    pub open spec fn head(&self) -> MessageHead {
        match self {
            Message::Request(r) => MessageHead::Request { flag: r.request, id: r.id, method: r.method@ },
            Message::Response(r) => MessageHead::Response {
                flag: r.response,
                id: r.id,
                ok: r.ok,
                error_code: r.error_code,
                error_reason: opt_view(r.error_reason),
            },
            Message::Notification(n) => MessageHead::Notification {
                flag: n.notification,
                method: n.method@,
            },
        }
    }

    /// The payload this message carries.
    pub open spec fn payload(&self) -> serde_json::Value {
        match self {
            Message::Request(r) => r.data,
            Message::Response(r) => r.data,
            Message::Notification(n) => n.data,
        }
    }

    /// Builds the message that a document with these members holds: the
    /// first of `request`, `response` and `notification` that is `true`
    /// decides the kind, and the members of that kind must be well typed.
    /// `data` is the document's `data` member, if it has one.
    pub fn decode(fields: MessageFields, data: Option<serde_json::Value>) -> (message: Option<
        Message,
    >)
        ensures
            message is Some <==> decode_head(fields@) is Some,
            message matches Some(m) ==> m.head() == decode_head(fields@)->0,
            message matches Some(m) ==> payload_from(data, m.payload()),
            message matches Some(Message::Request(r)) ==> fields@.id == FieldView::Unsigned(r.id)
                && fields@.method == FieldView::Text(r.method@),
            message matches Some(Message::Response(r)) ==> fields@.id == FieldView::Unsigned(r.id)
                && (fields@.ok matches FieldView::Bool(b) ==> r.ok == b) && (fields@.ok is Missing
                ==> !r.ok) && (fields@.error_code matches FieldView::Unsigned(c) ==> r.error_code
                == Some(c as u16)) && (fields@.error_reason matches FieldView::Text(t) ==> opt_view(
                r.error_reason,
            ) == Some(t)),
            message matches Some(Message::Notification(n)) ==> fields@.method == FieldView::Text(
                n.method@,
            ),
    {
        if flag_is_set(&fields.request) {
            let id = take_id(&fields.id);
            let method = take_text(fields.method);
            match (id, method) {
                (Some(id), Some(method)) => Some(
                    Message::Request(
                        InternalRequest { request: true, id, method, data: payload_or_default(data) },
                    ),
                ),
                _ => None,
            }
        } else if flag_is_set(&fields.response) {
            let id = take_id(&fields.id);
            let ok = take_bool(&fields.ok);
            let error_code = take_code(&fields.error_code);
            let error_reason = take_optional_text(fields.error_reason);
            match (id, ok, error_code, error_reason) {
                (Some(id), Some(ok), Some(error_code), Some(error_reason)) => Some(
                    Message::Response(
                        InternalResponse {
                            response: true,
                            id,
                            ok,
                            data: payload_or_default(data),
                            error_code,
                            error_reason,
                        },
                    ),
                ),
                _ => None,
            }
        } else if flag_is_set(&fields.notification) {
            match take_text(fields.method) {
                Some(method) => Some(
                    Message::Notification(
                        InternalNotification {
                            notification: true,
                            method,
                            data: payload_or_default(data),
                        },
                    ),
                ),
                None => None,
            }
        } else {
            None
        }
    }

    /// Try to parse a serialized message coming from the transport layer.
    pub fn parse(raw: &str) -> (message: Option<Self>)
        ensures
            message is Some <==> parse_head(raw@) is Some,
            message matches Some(m) ==> m.head() == parse_head(raw@)->0,
            message matches Some(m) ==> payload_from(document_data(raw@), m.payload()),
            message matches Some(m) ==> (!(json_member(raw@, "data"@) is Missing) ==> m.payload()
                == json_member_value(raw@, "data"@)),
            message matches Some(m) ==> (m.request_id_view() matches Some(id) ==> json_member(
                raw@,
                "id"@,
            ) == FieldView::Unsigned(id)),
            message matches Some(Message::Response(r)) ==> (json_member(raw@, "ok"@) matches FieldView::Bool(b)
                ==> r.ok == b) && (json_member(raw@, "ok"@) is Missing ==> !r.ok),
    {
        let doc = match JsonDocument::parse(raw) {
            Some(doc) => doc,
            None => return None,
        };
        let fields = MessageFields {
            request: doc.member("request"),
            response: doc.member("response"),
            notification: doc.member("notification"),
            id: doc.member("id"),
            method: doc.member("method"),
            ok: doc.member("ok"),
            error_code: doc.member("error_code"),
            error_reason: doc.member("error_reason"),
        };
        let data = doc.member_value("data");
        Message::decode(fields, data)
    }
}


impl Message {
    /// The request this message is, if it is one.
    pub open spec fn request_view(self) -> Option<Request> {
        match self {
            Message::Request(r) => Some(Request { id: r.id, method: r.method, data: r.data }),
            _ => None,
        }
    }

    /// The response this message is, if it is one.
    pub open spec fn response_view(self) -> Option<Response> {
        match self {
            Message::Response(r) => Some(
                Response {
                    id: r.id,
                    ok: r.ok,
                    data: r.data,
                    error_code: r.error_code,
                    error_reason: r.error_reason,
                },
            ),
            _ => None,
        }
    }

    /// The notification this message is, if it is one.
    pub open spec fn notification_view(self) -> Option<Notification> {
        match self {
            Message::Notification(n) => Some(Notification { method: n.method, data: n.data }),
            _ => None,
        }
    }

    /// The identifier a request or a response carries.
    pub open spec fn request_id_view(self) -> Option<u64> {
        match self {
            Message::Request(r) => Some(r.id),
            Message::Response(r) => Some(r.id),
            Message::Notification(_) => None,
        }
    }

    pub fn as_request(&self) -> (request: Option<Request>)
        ensures
            request == self.request_view(),
    {
        match self {
            Message::Request(internal) => Some(
                Request {
                    id: internal.id,
                    method: internal.method.clone(),
                    data: internal.data.clone(),
                },
            ),
            _ => None,
        }
    }

    pub fn as_response(&self) -> (response: Option<Response>)
        ensures
            response == self.response_view(),
    {
        match self {
            Message::Response(internal) => Some(
                Response {
                    id: internal.id,
                    ok: internal.ok,
                    data: internal.data.clone(),
                    error_code: internal.error_code,
                    error_reason: match &internal.error_reason {
                        Some(reason) => Some(reason.clone()),
                        None => None,
                    },
                },
            ),
            _ => None,
        }
    }

    pub fn as_notification(&self) -> (notification: Option<Notification>)
        ensures
            notification == self.notification_view(),
    {
        match self {
            Message::Notification(internal) => Some(
                Notification { method: internal.method.clone(), data: internal.data.clone() },
            ),
            _ => None,
        }
    }

    /// A new request for `method`, under a random positive identifier of at
    /// most 10_000_000, carrying
    /// `data` or, when none is given, an empty object.
    pub fn create_request(method: String, data: Option<serde_json::Value>) -> (message: Self)
        ensures
            message matches Message::Request(r) && r.request && r.method == method && r.id
                <= 10_000_000 && 1 <= r.id,
            message.request_id_view() is Some,
            payload_from(data, message.payload()),
    {
        Message::Request(
            InternalRequest {
                request: true,
                id: random_in_range(1, 10_000_000),
                method,
                data: payload_or_default(data),
            },
        )
    }

    /// The success response to `request`, carrying `data` or, when none is
    /// given, an empty object.
    pub fn create_success_response(request: &Request, data: Option<serde_json::Value>) -> (message:
        Self)
        ensures
            message.head() == (MessageHead::Response {
                flag: true,
                id: request.id,
                ok: true,
                error_code: None,
                error_reason: None,
            }),
            message.request_id_view() == Some(request.id),
            payload_from(data, message.payload()),
    {
        Message::Response(
            InternalResponse {
                response: true,
                id: request.id,
                ok: true,
                data: payload_or_default(data),
                error_code: None,
                error_reason: None,
            },
        )
    }

    /// The error response to `request`, with an empty object as payload.
    pub fn create_error_response(request: &Request, error_code: u16, error_reason: String) -> (message:
        Self)
        ensures
            message.head() == (MessageHead::Response {
                flag: true,
                id: request.id,
                ok: false,
                error_code: Some(error_code),
                error_reason: Some(error_reason@),
            }),
            message.request_id_view() == Some(request.id),
            json_text_of(message.payload()) == "{}"@,
    {
        Message::Response(
            InternalResponse {
                response: true,
                id: request.id,
                ok: false,
                data: empty_object(),
                error_code: Some(error_code),
                error_reason: Some(error_reason),
            },
        )
    }

    /// A new notification for `method`, carrying `data` or, when none is
    /// given, an empty object.
    pub fn create_notification(method: String, data: Option<serde_json::Value>) -> (message: Self)
        ensures
            message.head() == (MessageHead::Notification { flag: true, method: method@ }),
            payload_from(data, message.payload()),
    {
        Message::Notification(
            InternalNotification { notification: true, method, data: payload_or_default(data) },
        )
    }

    pub fn request_id(&self) -> (id: Option<u64>)
        ensures
            id == self.request_id_view(),
    {
        match self {
            Message::Request(req) => Some(req.id),
            Message::Response(res) => Some(res.id),
            _ => None,
        }
    }
}

impl From<Request> for Message {
    fn from(request: Request) -> (message: Self) {
        Message::Request(
            InternalRequest {
                request: true,
                id: request.id,
                method: request.method,
                data: request.data,
            },
        )
    }
}

impl vstd::std_specs::convert::FromSpecImpl<Request> for Message {
    open spec fn obeys_from_spec() -> bool {
        true
    }

    open spec fn from_spec(v: Request) -> Self {
        Message::Request(InternalRequest { request: true, id: v.id, method: v.method, data: v.data })
    }
}

impl From<Response> for Message {
    fn from(response: Response) -> (message: Self) {
        Message::Response(
            InternalResponse {
                response: true,
                id: response.id,
                ok: response.ok,
                data: response.data,
                error_code: response.error_code,
                error_reason: response.error_reason,
            },
        )
    }
}

impl vstd::std_specs::convert::FromSpecImpl<Response> for Message {
    open spec fn obeys_from_spec() -> bool {
        true
    }

    open spec fn from_spec(v: Response) -> Self {
        Message::Response(
            InternalResponse {
                response: true,
                id: v.id,
                ok: v.ok,
                data: v.data,
                error_code: v.error_code,
                error_reason: v.error_reason,
            },
        )
    }
}

impl From<Notification> for Message {
    fn from(notification: Notification) -> (message: Self) {
        Message::Notification(
            InternalNotification {
                notification: true,
                method: notification.method,
                data: notification.data,
            },
        )
    }
}

impl vstd::std_specs::convert::FromSpecImpl<Notification> for Message {
    open spec fn obeys_from_spec() -> bool {
        true
    }

    open spec fn from_spec(v: Notification) -> Self {
        Message::Notification(
            InternalNotification { notification: true, method: v.method, data: v.data },
        )
    }
}

impl Request {
    pub fn new(id: u64, method: String, data: serde_json::Value) -> (request: Self)
        ensures
            request == (Request { id, method, data }),
    {
        Request { id, method, data }
    }
}

impl Response {
    /// A successful response with identifier `id` carrying `data`.
    pub fn ok(id: u64, data: serde_json::Value) -> (response: Self)
        ensures
            response == (Response { id, ok: true, data, error_code: None, error_reason: None }),
    {
        Response { id, ok: true, data, error_code: None, error_reason: None }
    }

    /// A failed response with identifier `id`, an error code and a reason,
    /// with an empty object as payload.
    pub fn error(id: u64, code: u16, reason: String) -> (response: Self)
        ensures
            response.id == id,
            !response.ok,
            response.error_code == Some(code),
            response.error_reason == Some(reason),
            json_text_of(response.data) == "{}"@,
    {
        Response {
            id,
            ok: false,
            data: empty_object(),
            error_code: Some(code),
            error_reason: Some(reason),
        }
    }
}

impl Notification {
    pub fn new(method: String, data: serde_json::Value) -> (notification: Self)
        ensures
            notification == (Notification { method, data }),
    {
        Notification { method, data }
    }
}

impl<'a> From<&'a Request> for Request {
    fn from(request: &'a Request) -> (copy: Self) {
        Request { id: request.id, method: request.method.clone(), data: request.data.clone() }
    }
}

impl<'a> vstd::std_specs::convert::FromSpecImpl<&'a Request> for Request {
    open spec fn obeys_from_spec() -> bool {
        true
    }

    open spec fn from_spec(v: &'a Request) -> Self {
        *v
    }
}

impl<'a> From<&'a Response> for Response {
    fn from(response: &'a Response) -> (copy: Self) {
        Response {
            id: response.id,
            ok: response.ok,
            data: response.data.clone(),
            error_code: response.error_code,
            error_reason: match &response.error_reason {
                Some(reason) => Some(reason.clone()),
                None => None,
            },
        }
    }
}

impl<'a> vstd::std_specs::convert::FromSpecImpl<&'a Response> for Response {
    open spec fn obeys_from_spec() -> bool {
        true
    }

    open spec fn from_spec(v: &'a Response) -> Self {
        *v
    }
}

impl<'a> From<&'a Notification> for Notification {
    fn from(notification: &'a Notification) -> (copy: Self) {
        Notification { method: notification.method.clone(), data: notification.data.clone() }
    }
}

impl<'a> vstd::std_specs::convert::FromSpecImpl<&'a Notification> for Notification {
    open spec fn obeys_from_spec() -> bool {
        true
    }

    open spec fn from_spec(v: &'a Notification) -> Self {
        *v
    }
}

/// Wrapping a request into a message and reading it back gives the request.
pub proof fn lemma_request_round_trip(request: Request)
    ensures
        <Message as vstd::std_specs::convert::FromSpec<Request>>::from_spec(request).request_view()
            == Some(request),
{
}

/// Wrapping a response into a message and reading it back gives the response.
pub proof fn lemma_response_round_trip(response: Response)
    ensures
        <Message as vstd::std_specs::convert::FromSpec<Response>>::from_spec(response).response_view()
            == Some(response),
{
}

/// Wrapping a notification into a message and reading it back gives the
/// notification.
pub proof fn lemma_notification_round_trip(notification: Notification)
    ensures
        <Message as vstd::std_specs::convert::FromSpec<Notification>>::from_spec(
            notification,
        ).notification_view() == Some(notification),
{
}

/// Every message that a document decodes to has the flag of its kind set.
pub proof fn lemma_decoded_flag_set(fields: MessageFieldsView)
    ensures
        decode_head(fields) matches Some(h) ==> match h {
            MessageHead::Request { flag, .. } => flag,
            MessageHead::Response { flag, .. } => flag,
            MessageHead::Notification { flag, .. } => flag,
        },
{
}

/// A decoded request carries exactly the document's identifier and method.
pub proof fn lemma_decoded_request_fields(fields: MessageFieldsView)
    ensures
        decode_head(fields) matches Some(MessageHead::Request { id, method, .. }) ==> fields.id
            == FieldView::Unsigned(id) && fields.method == FieldView::Text(method),
{
}

/// A decoded response carries exactly the document's identifier; its `ok`
/// is the document's boolean when there is one and false only when the
/// member is absent, whatever the other members hold; and a code or reason
/// the document gives is the one it carries.
pub proof fn lemma_decoded_response_fields(fields: MessageFieldsView)
    ensures
        decode_head(fields) matches Some(MessageHead::Response { id, ok, error_code, error_reason, .. }) ==> {
            &&& fields.id == FieldView::Unsigned(id)
            &&& fields.ok matches FieldView::Bool(b) ==> ok == b
            &&& fields.ok is Missing ==> !ok
            &&& ok ==> (fields.ok == FieldView::Bool(true))
            &&& fields.error_code matches FieldView::Unsigned(c) ==> error_code == Some(c as u16)
            &&& fields.error_reason matches FieldView::Text(t) ==> error_reason == Some(t)
        },
{
}

/// The payload of a parsed message is the document's `data` member whenever
/// the document has one, whatever it holds and whatever the message's kind;
/// only a document without it gets an empty object.
pub proof fn lemma_parsed_payload(raw: Seq<char>)
    ensures
        !(json_member(raw, "data"@) is Missing) ==> document_data(raw) == Some(
            json_member_value(raw, "data"@),
        ),
        json_member(raw, "data"@) is Missing ==> document_data(raw) is None,
{
}

} // verus!
