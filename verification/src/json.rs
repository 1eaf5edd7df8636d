//! JSON documents, as `serde_json` reads them.
//!
//! A document stays a `serde_json::Value`. The functions here are the only
//! doors into it; what they hand out is named by the spec functions beside
//! them, and the decoders of this crate are stated over those names.

use vstd::prelude::*;

verus! {

/// `serde_json::Value`, a JSON document or a part of one. Nothing of its
/// inside is visible here.
#[verifier::external_type_specification]
#[verifier::external_body]
pub struct ExJsonValue(serde_json::Value);

/// `serde_json::Error`, the reason why a byte string holds no document.
#[verifier::external_type_specification]
#[verifier::external_body]
pub struct ExJsonError(serde_json::Error);

/// The document that a byte string holds, if it is well-formed JSON.
pub uninterp spec fn json_document(bytes: Seq<u8>) -> Option<serde_json::Value>;

/// The elements of a JSON array; nothing for any other value.
pub uninterp spec fn json_elements(value: serde_json::Value) -> Option<Seq<serde_json::Value>>;

/// The member of a JSON object under a key; nothing if the value is no
/// object or has no such key.
pub uninterp spec fn json_member(value: serde_json::Value, key: Seq<char>) -> Option<
    serde_json::Value,
>;

/// The characters of a JSON string; nothing for any other value.
pub uninterp spec fn json_text(value: serde_json::Value) -> Option<Seq<char>>;

/// The number a JSON value holds, if it is an integer that fits in 64 signed bits.
pub uninterp spec fn json_integer(value: serde_json::Value) -> Option<int>;

/// Whether a JSON value is `null`.
pub uninterp spec fn json_is_null(value: serde_json::Value) -> bool;

/// `serde_json::from_slice` at type `Value`: parses a whole byte string as
/// one JSON document. Succeeds exactly on the inputs that hold a document,
/// and then returns it.
#[verifier::external_body]
pub(crate) fn parse_document(bytes: &[u8]) -> (r: Result<serde_json::Value, serde_json::Error>)
    ensures
        r.is_ok() <==> json_document(bytes@).is_some(),
        r matches Ok(value) ==> json_document(bytes@) == Some(value),
{
    serde_json::from_slice::<serde_json::Value>(bytes)
}

/// `Value::as_array`: the vector behind an array value, `None` for any other.
#[verifier::external_body]
pub(crate) fn elements(value: &serde_json::Value) -> (r: Option<&Vec<serde_json::Value>>)
    ensures
        r.is_some() <==> json_elements(*value).is_some(),
        r matches Some(items) ==> json_elements(*value) == Some(items@),
{
    value.as_array()
}

/// `Value::get` with a string key: the member under that key, `None` if the
/// value is no object or lacks the key.
#[verifier::external_body]
pub(crate) fn member<'a>(value: &'a serde_json::Value, key: &str) -> (r: Option<
    &'a serde_json::Value,
>)
    ensures
        r.is_some() <==> json_member(*value, key@).is_some(),
        r matches Some(found) ==> json_member(*value, key@) == Some(*found),
{
    value.get(key)
}

/// `Value::as_str`: the characters of a string value, `None` for any other.
#[verifier::external_body]
pub(crate) fn text(value: &serde_json::Value) -> (r: Option<&str>)
    ensures
        r.is_some() <==> json_text(*value).is_some(),
        r matches Some(s) ==> json_text(*value) == Some(s@),
{
    value.as_str()
}

/// `Value::as_i64`: the integer a number value holds if it fits in an `i64`,
/// `None` otherwise.
#[verifier::external_body]
pub(crate) fn integer(value: &serde_json::Value) -> (r: Option<i64>)
    ensures
        r.is_some() <==> json_integer(*value).is_some(),
        r matches Some(n) ==> json_integer(*value) == Some(n as int),
{
    value.as_i64()
}

/// `Value::is_null`.
#[verifier::external_body]
pub(crate) fn is_null(value: &serde_json::Value) -> (r: bool)
    ensures
        r == json_is_null(*value),
{
    value.is_null()
}

/// The text of an object's member: present when the member exists and is a string.
pub open spec fn text_member(value: serde_json::Value, key: Seq<char>) -> Option<Seq<char>> {
    match json_member(value, key) {
        Some(found) => json_text(found),
        None => None,
    }
}

/// Reads a member that must be a string.
pub fn read_text(value: &serde_json::Value, key: &str) -> (r: Option<String>)
    ensures
        r.is_some() <==> text_member(*value, key@).is_some(),
        r matches Some(s) ==> text_member(*value, key@) == Some(s@),
{
    match member(value, key) {
        Some(found) => match text(found) {
            Some(s) => Some(s.to_owned()),
            None => None,
        },
        None => None,
    }
}

} // verus!
