use crate::types::opt_text;
use serde_json::Value;
use vstd::prelude::*;

verus! {

/// A JSON value of `serde_json`, opaque to the verifier.
#[verifier::external_type_specification]
#[verifier::external_body]
pub struct ExValue(Value);

/// What kind of JSON value a value is.
#[derive(Clone, Copy, Debug, PartialEq, Eq, Structural)]
pub enum JsonKind {
    Null,
    Bool,
    Number,
    Text,
    Array,
    Object,
}

/// The JSON value that a text stands for; none where it is no JSON.
pub uninterp spec fn parsed_json(text: Seq<char>) -> Option<Value>;

/// The kind of a JSON value.
pub uninterp spec fn json_kind_of(v: Value) -> JsonKind;

/// The text of a JSON string.
pub uninterp spec fn json_text_of(v: Value) -> Seq<char>;

/// The member of a JSON object under a key; none where the value is no
/// object or has no such member.
pub uninterp spec fn json_member(v: Value, key: Seq<char>) -> Option<Value>;

/// The JSON string with a text.
pub uninterp spec fn json_string(text: Seq<char>) -> Value;

/// A JSON object with a member set under a key; null counts as the empty object.
pub uninterp spec fn json_with_member(v: Value, key: Seq<char>, member: Value) -> Value;

/// A JSON value written out over several lines; none where it cannot be written.
pub uninterp spec fn json_pretty(v: Value) -> Option<Seq<char>>;

/// `serde_json::from_str`: reads a text as a JSON value, or gives the
/// message of the syntax error.
#[verifier::external_body]
pub(crate) fn json_parse(text: &str) -> (r: Result<Value, String>)
    ensures
        r is Ok == parsed_json(text@) is Some,
        r matches Ok(v) ==> parsed_json(text@) == Some(v),
{
    serde_json::from_str::<Value>(text).map_err(|e| e.to_string())
}

/// Tells the variants of `serde_json::Value` apart.
#[verifier::external_body]
pub(crate) fn json_kind(v: &Value) -> (k: JsonKind)
    ensures
        k == json_kind_of(*v),
{
    match v {
        Value::Null => JsonKind::Null,
        Value::Bool(_) => JsonKind::Bool,
        Value::Number(_) => JsonKind::Number,
        Value::String(_) => JsonKind::Text,
        Value::Array(_) => JsonKind::Array,
        Value::Object(_) => JsonKind::Object,
    }
}

/// `Value::as_str`: the text of a JSON string, none for any other value.
#[verifier::external_body]
pub(crate) fn json_str(v: &Value) -> (r: Option<String>)
    ensures
        r is Some == (json_kind_of(*v) == JsonKind::Text),
        r matches Some(s) ==> s@ == json_text_of(*v),
{
    v.as_str().map(|s| s.to_owned())
}

/// `Value::get` with a key: a copy of the member of an object under the key.
#[verifier::external_body]
pub(crate) fn json_get(v: &Value, key: &str) -> (r: Option<Value>)
    ensures
        r == json_member(*v, key@),
{
    v.get(key).cloned()
}

/// `Value::String`: the JSON string with a text.
#[verifier::external_body]
pub(crate) fn json_from_text(text: &str) -> (r: Value)
    ensures
        r == json_string(text@),
{
    Value::String(text.to_owned())
}

/// `Value::index_mut` with a key, followed by an assignment: sets the member
/// of an object under the key. The call panics on a value that is neither an
/// object nor null, so such values are left out.
#[verifier::external_body]
pub(crate) fn json_set(v: Value, key: &str, member: Value) -> (r: Value)
    requires
        json_kind_of(v) == JsonKind::Object || json_kind_of(v) == JsonKind::Null,
    ensures
        r == json_with_member(v, key@, member),
{
    let mut v = v;
    v[key] = member;
    v
}

/// `serde_json::to_string_pretty`: writes a JSON value out over several lines.
#[verifier::external_body]
pub(crate) fn json_to_pretty(v: &Value) -> (r: Option<String>)
    ensures
        opt_text(r) == json_pretty(*v),
{
    serde_json::to_string_pretty(v).ok()
}

} // verus!
