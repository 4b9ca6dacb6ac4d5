//! The JSON documents that messages travel in.
//!
//! A message payload is an arbitrary JSON value that the library carries
//! through without looking into it. What the library does read of a
//! document is the kind of each top-level member, which it gets as a
//! [`FieldValue`] and decodes with its own rules.

use vstd::prelude::*;

verus! {

/// A JSON value as `serde_json` holds it; the library carries it opaquely.
#[verifier::external_type_specification]
#[verifier::external_body]
pub struct ExJsonValue(serde_json::Value);

/// What a top-level member of a JSON object holds, as far as the message
/// format cares.
#[derive(Debug, Clone)]
pub enum FieldValue {
    /// The document has no such member (or is not an object).
    Missing,
    /// The member is `null`.
    Null,
    /// The member is a boolean.
    Bool(bool),
    /// The member is a number that is a non-negative integer fitting a `u64`.
    Unsigned(u64),
    /// The member is a string.
    Text(String),
    /// The member is anything else: an array, an object, a negative or
    /// fractional number, or one too large for a `u64`.
    Other,
}

/// The mathematical view of a [`FieldValue`].
pub enum FieldView {
    Missing,
    Null,
    Bool(bool),
    Unsigned(u64),
    Text(Seq<char>),
    Other,
}

impl View for FieldValue {
    type V = FieldView;

    open spec fn view(&self) -> FieldView {
        match self {
            FieldValue::Missing => FieldView::Missing,
            FieldValue::Null => FieldView::Null,
            FieldValue::Bool(b) => FieldView::Bool(*b),
            FieldValue::Unsigned(u) => FieldView::Unsigned(*u),
            FieldValue::Text(s) => FieldView::Text(s@),
            FieldValue::Other => FieldView::Other,
        }
    }
}

/// Whether `serde_json::from_str` accepts `text` as a JSON document.
pub uninterp spec fn json_text_is_valid(text: Seq<char>) -> bool;

/// What the top-level member `key` of the JSON document `text` holds, as
/// `serde_json::Value::get` finds it and [`FieldValue`] classifies it.
pub uninterp spec fn json_member(text: Seq<char>, key: Seq<char>) -> FieldView;

/// The value of the top-level member `key` of the JSON document `text`, as
/// `serde_json::Value::get` finds it and its `Clone` copies it.
pub uninterp spec fn json_member_value(text: Seq<char>, key: Seq<char>) -> serde_json::Value;

/// The JSON text that `serde_json::to_string` writes for `value`.
pub uninterp spec fn json_text_of(value: serde_json::Value) -> Seq<char>;

/// A parsed JSON document. Its view is the text it was parsed from; it is
/// made by [`JsonDocument::parse`] only, so its value is always the parse of
/// that text.
pub(crate) struct JsonDocument {
    value: serde_json::Value,
    text: Ghost<Seq<char>>,
}

impl View for JsonDocument {
    type V = Seq<char>;

    closed spec fn view(&self) -> Seq<char> {
        self.text@
    }
}

impl JsonDocument {
    /// Parses `raw` with `serde_json::from_str` into a JSON value.
    /// Trusted: `Some` exactly when serde_json accepts the text, and the
    /// document remembers that text.
    #[verifier::external_body]
    pub(crate) fn parse(raw: &str) -> (doc: Option<JsonDocument>)
        ensures
            doc is Some <==> json_text_is_valid(raw@),
            doc matches Some(d) ==> d@ == raw@,
    {
        match serde_json::from_str::<serde_json::Value>(raw) {
            Ok(value) => Some(JsonDocument { value, text: Ghost(raw@) }),
            Err(_) => None,
        }
    }

    /// Looks up the top-level member `key` with `serde_json::Value::get` and
    /// tells its kind apart. Trusted: the result is a function of the
    /// document's text and the key, named by [`json_member`].
    #[verifier::external_body]
    pub(crate) fn member(&self, key: &str) -> (field: FieldValue)
        ensures
            field@ == json_member(self@, key@),
    {
        match self.value.get(key) {
            None => FieldValue::Missing,
            Some(serde_json::Value::Null) => FieldValue::Null,
            Some(serde_json::Value::Bool(b)) => FieldValue::Bool(*b),
            Some(serde_json::Value::Number(n)) => match n.as_u64() {
                Some(u) => FieldValue::Unsigned(u),
                None => FieldValue::Other,
            },
            Some(serde_json::Value::String(s)) => FieldValue::Text(s.clone()),
            Some(_) => FieldValue::Other,
        }
    }

    /// Copies out the top-level member `key` with `serde_json::Value::get`.
    /// Trusted: `Some` exactly when the member exists, and then the value is
    /// a function of the document's text and the key, named by
    /// [`json_member_value`].
    #[verifier::external_body]
    pub(crate) fn member_value(&self, key: &str) -> (value: Option<serde_json::Value>)
        ensures
            value is Some <==> !(json_member(self@, key@) is Missing),
            value matches Some(v) ==> v == json_member_value(self@, key@),
    {
        self.value.get(key).cloned()
    }
}

/// Makes an empty JSON object with `serde_json::Map::new`, the payload of a
/// message that was given none. Trusted: serde_json writes it as `{}`, as
/// its serializer does for an object with no entry.
#[verifier::external_body]
pub(crate) fn empty_object() -> (value: serde_json::Value)
    ensures
        json_text_of(value) == "{}"@,
{
    serde_json::Value::Object(serde_json::Map::new())
}

/// The `Clone` of a JSON value, which serde_json derives and which copies the
/// value whole. Trusted: the copy is the same value.
pub assume_specification[ <serde_json::Value as Clone>::clone ](value: &serde_json::Value) -> (copy:
    serde_json::Value)
    ensures
        copy == *value,
;

} // verus!
