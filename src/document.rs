//! Structured documents: opaque JSON values that the cache passes through.
use vstd::prelude::*;

verus! {

#[verifier::external_type_specification]
#[verifier::external_body]
pub struct ExValue(serde_json::Value);

#[verifier::external_type_specification]
#[verifier::external_body]
pub struct ExJsonError(serde_json::Error);

/// Relies on the derived `Clone` of `serde_json::Value`: a deep copy, equal to
/// the value copied.
pub assume_specification[ <serde_json::Value as Clone>::clone ](v: &serde_json::Value) -> (r:
    serde_json::Value)
    ensures
        r == *v,
;

/// Whether `serde_json::from_str` accepts the text as one JSON value.
pub uninterp spec fn is_json_text(s: Seq<char>) -> bool;

/// The value that `serde_json::from_str` makes of a JSON text.
pub uninterp spec fn json_of(s: Seq<char>) -> serde_json::Value;

/// The text of the string member `key` of an object, if the value is an
/// object holding a string under that key.
pub uninterp spec fn string_member_of(doc: serde_json::Value, key: Seq<char>) -> Option<Seq<char>>;

/// Relies on `serde_json::from_str::<Value>`: it succeeds exactly on the texts
/// that hold one JSON value, and its value depends on the text alone.
#[verifier::external_body]
pub fn parse_document(text: &str) -> (r: Result<serde_json::Value, serde_json::Error>)
    ensures
        r is Ok <==> is_json_text(text@),
        r matches Ok(v) ==> v == json_of(text@),
{
    serde_json::from_str::<serde_json::Value>(text)
}

/// Relies on `serde_json::Value::Object` with `serde_json::Map::new`: the empty
/// object, the value that `serde_json::from_str` makes of `{}`.
#[verifier::external_body]
pub fn empty_document() -> (r: serde_json::Value)
    ensures
        r == json_of("{}"@),
{
    serde_json::Value::Object(serde_json::Map::new())
}

/// Relies on `serde_json::Value::get` with a string key and
/// `serde_json::Value::as_str`: the text of the string member under `key`.
#[verifier::external_body]
pub fn string_member(doc: &serde_json::Value, key: &str) -> (r: Option<String>)
    ensures
        r is Some <==> string_member_of(*doc, key@) is Some,
        r matches Some(t) ==> string_member_of(*doc, key@) == Some(t@),
{
    doc.get(key).and_then(|v| v.as_str()).map(|t| t.to_owned())
}

} // verus!
