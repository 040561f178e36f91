//! The few facts about `serde_json` that the configuration reader relies on.
//!
//! A JSON document is held as a `serde_json::Value`, which stays opaque here.
//! What the reader learns from it goes through the names below, one for each
//! accessor of `serde_json` that is called.
use vstd::prelude::*;

verus! {

#[verifier::external_type_specification]
#[verifier::external_body]
pub struct ExValue(serde_json::Value);

/// The document that `serde_json` parses from these bytes, if they are JSON.
pub uninterp spec fn json_document(bytes: Seq<u8>) -> Option<serde_json::Value>;

/// The elements of a value, when it is a JSON array.
pub uninterp spec fn json_elements(v: serde_json::Value) -> Option<Seq<serde_json::Value>>;

/// The text of a value, when it is a JSON string.
pub uninterp spec fn json_text(v: serde_json::Value) -> Option<Seq<char>>;

/// The member stored under `key`, when the value is a JSON object that has one.
pub uninterp spec fn json_member(v: serde_json::Value, key: Seq<char>) -> Option<serde_json::Value>;

/// Relies on `serde_json::from_slice` into a `Value`: it parses the bytes as
/// one JSON document, and fails when they are not JSON.
#[verifier::external_body]
pub(crate) fn parse_document(bytes: &[u8]) -> (r: Option<serde_json::Value>)
    ensures
        r == json_document(bytes@),
{
    serde_json::from_slice::<serde_json::Value>(bytes).ok()
}

/// Relies on `Value::as_array`: the elements of an array, `None` otherwise.
pub assume_specification[ serde_json::Value::as_array ](v: &serde_json::Value) -> (r: Option<
    &Vec<serde_json::Value>,
>)
    ensures
        match r {
            Some(items) => json_elements(*v) == Some(items@),
            None => json_elements(*v) is None,
        },
;

/// Relies on `Value::as_str`: the text of a string, `None` otherwise.
pub assume_specification[ serde_json::Value::as_str ](v: &serde_json::Value) -> (r: Option<&str>)
    ensures
        match r {
            Some(s) => json_text(*v) == Some(s@),
            None => json_text(*v) is None,
        },
;

/// Relies on `Value::get` with a string key: the member of an object under
/// that key, `None` when the value is no object or has no such member.
#[verifier::external_body]
pub(crate) fn member<'a>(v: &'a serde_json::Value, key: &str) -> (r: Option<&'a serde_json::Value>)
    ensures
        match r {
            Some(m) => json_member(*v, key@) == Some(*m),
            None => json_member(*v, key@) is None,
        },
{
    v.get(key)
}

} // verus!
