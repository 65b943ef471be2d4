//! A mathematical model of parsed JSON, and the trusted bridge to the
//! `serde_json` parser.
//!
//! The pipeline only ever distinguishes strings, arrays and objects in the
//! upstream payload, so the model folds every other kind of value into
//! `JsonV::Other`.

use vstd::prelude::*;

verus! {

/// Model of a parsed JSON value, as far as this crate reads one.
pub ghost enum JsonV {
    /// A JSON string.
    Str(Seq<char>),
    /// A JSON array.
    Arr(Seq<JsonV>),
    /// A JSON object: a map from member names to member values.
    Obj(Map<Seq<char>, JsonV>),
    /// Any other JSON value (null, boolean or number).
    Other,
}

/// The model of the value that `serde_json` parses the given text into, or
/// `None` where the text is not valid JSON.  Parsing depends on the text
/// alone, so this is a function of it.
pub uninterp spec fn json_model_of(s: Seq<char>) -> Option<JsonV>;

/// The model of a parsed `serde_json::Value`: what the tree holds.
pub uninterp spec fn value_model(v: serde_json::Value) -> JsonV;

#[verifier::external_type_specification]
#[verifier::external_body]
pub struct ExValue(serde_json::Value);

/// Relies on `serde_json::from_str::<Value>`: whether the text parses, and
/// what it parses into, depend on the text alone.
#[verifier::external_body]
pub(crate) fn parse_json(s: &str) -> (r: Option<serde_json::Value>)
    ensures
        match json_model_of(s@) {
            None => r is None,
            Some(j) => r matches Some(v) && value_model(v) == j,
        },
{
    serde_json::from_str(s).ok()
}

/// Relies on `serde_json::Value::get` with a string index: on an object it
/// looks the member up in the object's map, on any other value it returns
/// `None`.
#[verifier::external_body]
pub(crate) fn get_field<'a>(v: &'a serde_json::Value, key: &str) -> (r: Option<
    &'a serde_json::Value,
>)
    ensures
        match value_model(*v) {
            JsonV::Obj(m) => {
                if m.contains_key(key@) {
                    r matches Some(f) && value_model(*f) == m[key@]
                } else {
                    r is None
                }
            },
            _ => r is None,
        },
{
    v.get(key)
}

/// Relies on `serde_json::Value::as_array`: it returns the elements exactly
/// when the value is an array.
#[verifier::external_body]
pub(crate) fn as_array<'a>(v: &'a serde_json::Value) -> (r: Option<&'a Vec<serde_json::Value>>)
    ensures
        match value_model(*v) {
            JsonV::Arr(a) => r matches Some(vs) && vs@.len() == a.len() && (forall|i: int|
                0 <= i < a.len() ==> value_model(#[trigger] vs@[i]) == a[i]),
            _ => r is None,
        },
{
    v.as_array()
}

/// Relies on `serde_json::Value::as_str`: it returns the characters exactly
/// when the value is a string.
#[verifier::external_body]
pub(crate) fn as_str<'a>(v: &'a serde_json::Value) -> (r: Option<&'a str>)
    ensures
        match value_model(*v) {
            JsonV::Str(s) => r matches Some(t) && t@ == s,
            _ => r is None,
        },
{
    v.as_str()
}

/// The member of an object under the given name, if the model is an object
/// that has one.
pub open spec fn field_of(j: JsonV, key: Seq<char>) -> Option<JsonV> {
    match j {
        JsonV::Obj(m) => if m.contains_key(key) {
            Some(m[key])
        } else {
            None
        },
        _ => None,
    }
}

/// The member under the given name, if it is a string.
pub open spec fn str_field_of(j: JsonV, key: Seq<char>) -> Option<Seq<char>> {
    match field_of(j, key) {
        Some(JsonV::Str(s)) => Some(s),
        _ => None,
    }
}

/// The models of a sequence of parsed values.
pub open spec fn models_of(vs: Seq<serde_json::Value>) -> Seq<JsonV> {
    vs.map_values(|v: serde_json::Value| value_model(v))
}

/// Reads the string member of a document under the given name: the member's
/// characters where the document is an object holding a string there, and
/// `None` otherwise.
pub fn get_str_field<'a>(doc: &'a serde_json::Value, key: &str) -> (r: Option<&'a str>)
    ensures
        match str_field_of(value_model(*doc), key@) {
            Some(s) => r matches Some(t) && t@ == s,
            None => r is None,
        },
{
    match get_field(doc, key) {
        Some(f) => as_str(f),
        None => None,
    }
}

} // verus!
