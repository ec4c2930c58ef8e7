//! Reading members of a JSON document, with `serde_json` doing the parsing.
//!
//! A member is handed on as JSON text of its own, so that nested objects are
//! read the same way as the whole body.
use vstd::prelude::*;

verus! {

/// The JSON text of member `key` of the object that `text` holds: `None`
/// when `text` is not a JSON object or has no such member.
pub uninterp spec fn json_object_member(text: Seq<char>, key: Seq<char>) -> Option<Seq<char>>;

/// The string that the JSON text `text` holds, if it is a JSON string.
pub uninterp spec fn json_string(text: Seq<char>) -> Option<Seq<char>>;

/// The number that the JSON text `text` holds, if it is an integer in `u64`.
pub uninterp spec fn json_u64(text: Seq<char>) -> Option<u64>;

/// The boolean that the JSON text `text` holds, if it is `true` or `false`.
pub uninterp spec fn json_bool(text: Seq<char>) -> Option<bool>;

/// Relies on `serde_json::from_str` into a `serde_json::Map`, `Map::get` and
/// `Value::to_string`: the member's value, written out again as JSON.
#[verifier::external_body]
fn object_member(text: &str, key: &str) -> (r: Option<String>)
    ensures
        r.deep_view() == json_object_member(text@, key@),
{
    match serde_json::from_str::<serde_json::Map<String, serde_json::Value>>(text) {
        Ok(map) => match map.get(key) {
            Some(value) => Some(value.to_string()),
            None => None,
        },
        Err(_) => None,
    }
}

/// Relies on `serde_json::from_str::<String>`.
#[verifier::external_body]
fn decode_string(text: &str) -> (r: Option<String>)
    ensures
        r.deep_view() == json_string(text@),
{
    serde_json::from_str::<String>(text).ok()
}

/// Relies on `serde_json::from_str::<u64>`.
#[verifier::external_body]
fn decode_u64(text: &str) -> (r: Option<u64>)
    ensures
        r == json_u64(text@),
{
    serde_json::from_str::<u64>(text).ok()
}

/// Relies on `serde_json::from_str::<bool>`.
#[verifier::external_body]
fn decode_bool(text: &str) -> (r: Option<bool>)
    ensures
        r == json_bool(text@),
{
    serde_json::from_str::<bool>(text).ok()
}

pub open spec fn string_member_of(text: Seq<char>, key: Seq<char>) -> Option<Seq<char>> {
    match json_object_member(text, key) {
        Some(m) => json_string(m),
        None => None,
    }
}

pub open spec fn u64_member_of(text: Seq<char>, key: Seq<char>) -> Option<u64> {
    match json_object_member(text, key) {
        Some(m) => json_u64(m),
        None => None,
    }
}

pub open spec fn bool_member_of(text: Seq<char>, key: Seq<char>) -> Option<bool> {
    match json_object_member(text, key) {
        Some(m) => json_bool(m),
        None => None,
    }
}

/// The string at `outer.inner`, such as `sender.login`.
pub open spec fn nested_string_of(text: Seq<char>, outer: Seq<char>, inner: Seq<char>) -> Option<
    Seq<char>,
> {
    match json_object_member(text, outer) {
        Some(m) => string_member_of(m, inner),
        None => None,
    }
}

/// The number at `outer.inner`, such as `issue.number`.
pub open spec fn nested_u64_of(text: Seq<char>, outer: Seq<char>, inner: Seq<char>) -> Option<u64> {
    match json_object_member(text, outer) {
        Some(m) => u64_member_of(m, inner),
        None => None,
    }
}

/// The string member `key` of the object in `text`.
pub fn string_member(text: &str, key: &str) -> (r: Option<String>)
    ensures
        r.deep_view() == string_member_of(text@, key@),
{
    match object_member(text, key) {
        Some(m) => decode_string(m.as_str()),
        None => None,
    }
}

/// The integer member `key` of the object in `text`.
pub fn u64_member(text: &str, key: &str) -> (r: Option<u64>)
    ensures
        r == u64_member_of(text@, key@),
{
    match object_member(text, key) {
        Some(m) => decode_u64(m.as_str()),
        None => None,
    }
}

/// The boolean member `key` of the object in `text`.
pub fn bool_member(text: &str, key: &str) -> (r: Option<bool>)
    ensures
        r == bool_member_of(text@, key@),
{
    match object_member(text, key) {
        Some(m) => decode_bool(m.as_str()),
        None => None,
    }
}

/// The string at `outer.inner` of the object in `text`.
pub fn nested_string(text: &str, outer: &str, inner: &str) -> (r: Option<String>)
    ensures
        r.deep_view() == nested_string_of(text@, outer@, inner@),
{
    match object_member(text, outer) {
        Some(m) => string_member(m.as_str(), inner),
        None => None,
    }
}

/// The integer at `outer.inner` of the object in `text`.
pub fn nested_u64(text: &str, outer: &str, inner: &str) -> (r: Option<u64>)
    ensures
        r == nested_u64_of(text@, outer@, inner@),
{
    match object_member(text, outer) {
        Some(m) => u64_member(m.as_str(), inner),
        None => None,
    }
}

} // verus!
