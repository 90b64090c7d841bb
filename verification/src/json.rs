//! JSON values as this library reads them, and the parser that produces them.

use vstd::prelude::*;

verus! {

/// The parser's own value type; opaque here.
#[verifier::external_type_specification]
#[verifier::external_body]
pub struct ExValue(serde_json::Value);

/// A JSON value. A number is kept as the text the parser prints for it; an
/// object is kept as its members in the order the parser hands them out.
#[derive(Debug, PartialEq, Eq)]
pub enum Json {
    Null,
    Bool(bool),
    Number(String),
    Text(String),
    Array(Vec<Json>),
    Object(Vec<(String, Json)>),
}

/// What the parser makes of `text`: `None` where it rejects it.
pub uninterp spec fn parsed_value(text: Seq<char>) -> Option<Json>;

/// What a parsed value holds.
pub uninterp spec fn value_content(value: serde_json::Value) -> Json;

/// Calls `serde_json::from_str` at the type `serde_json::Value`. Trusted:
/// the outcome depends on `text` alone, and an error is reported as `None`.
#[verifier::external_body]
fn parse_value(text: &str) -> (r: Option<serde_json::Value>)
    ensures
        match r {
            Some(v) => parsed_value(text@) == Some(value_content(v)),
            None => parsed_value(text@) is None,
        },
{
    match serde_json::from_str::<serde_json::Value>(text) {
        Ok(v) => Some(v),
        Err(_) => None,
    }
}

/// Takes a `serde_json::Value` apart, variant by variant, into a `Json`.
/// Trusted: the result is what the value holds.
#[verifier::external_body]
fn lift_value(value: serde_json::Value) -> (j: Json)
    ensures
        j == value_content(value),
{
    match value {
        serde_json::Value::Null => Json::Null,
        serde_json::Value::Bool(b) => Json::Bool(b),
        serde_json::Value::Number(n) => Json::Number(n.to_string()),
        serde_json::Value::String(s) => Json::Text(s),
        serde_json::Value::Array(a) => Json::Array(a.into_iter().map(lift_value).collect()),
        serde_json::Value::Object(m) => Json::Object(
            m.into_iter().map(|(k, v)| (k, lift_value(v))).collect(),
        ),
    }
}

/// Parses `text` as one JSON value.
pub fn parse_json(text: &str) -> (r: Option<Json>)
    ensures
        r == parsed_value(text@),
{
    match parse_value(text) {
        Some(v) => Some(lift_value(v)),
        None => None,
    }
}

} // verus!
