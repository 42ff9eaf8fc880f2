//! The JSON values carried by envelopes.
//!
//! `serde_json::Value` is opaque to the verifier. What the library needs to
//! know of a value is named by three uninterpreted functions, one per
//! accessor of `serde_json`, and the functions below relate each call into
//! `serde_json` to those names. None of the contracts in this file is proved.

use vstd::prelude::*;

verus! {

/// `serde_json::Value`, carried through the library as an opaque value.
#[verifier::external_type_specification]
#[verifier::external_body]
pub struct ExJsonValue(serde_json::Value);

/// `serde_json::Error`, the failure of parsing a JSON text.
#[verifier::external_type_specification]
#[verifier::external_body]
pub struct ExJsonError(serde_json::Error);

/// What `serde_json::from_str::<Value>` returns for a text.
pub uninterp spec fn parse_outcome(text: Seq<char>) -> Result<serde_json::Value, serde_json::Error>;

/// What `Display` prints for a `serde_json::Error`.
pub uninterp spec fn failure_text(error: serde_json::Error) -> Seq<char>;

/// What `Value::as_object` returns: the members of a JSON object by key, or
/// `None` for a value that is not an object.
pub uninterp spec fn json_object(value: serde_json::Value) -> Option<Map<Seq<char>, serde_json::Value>>;

/// What `Value::as_str` returns: the characters of a JSON string, or `None`
/// for a value that is not a string.
pub uninterp spec fn json_text(value: serde_json::Value) -> Option<Seq<char>>;

/// What `Value::as_u64` returns: a JSON number that is a non-negative integer
/// below 2^64, or `None` for any other value.
pub uninterp spec fn json_uint(value: serde_json::Value) -> Option<u64>;

/// A value is the JSON object without members, `{}`.
pub open spec fn is_empty_object(value: serde_json::Value) -> bool {
    json_object(value) == Some(Map::<Seq<char>, serde_json::Value>::empty())
}

/// The member of a JSON object under a key; `None` where the value is not an
/// object or has no such member.
pub open spec fn json_member(value: serde_json::Value, key: Seq<char>) -> Option<serde_json::Value> {
    match json_object(value) {
        Some(members) => if members.contains_key(key) {
            Some(members[key])
        } else {
            None
        },
        None => None,
    }
}

/// Calls `serde_json::from_str::<Value>`: the result is the one named
/// [`parse_outcome`] for the text.
#[verifier::external_body]
pub(crate) fn parse_json(text: &str) -> (r: Result<serde_json::Value, serde_json::Error>)
    ensures
        r == parse_outcome(text@),
{
    serde_json::from_str::<serde_json::Value>(text)
}

/// Calls `to_string` on a `serde_json::Error`, which prints it with `Display`:
/// the result is the text named [`failure_text`].
#[verifier::external_body]
pub(crate) fn error_text(error: &serde_json::Error) -> (r: String)
    ensures
        r@ == failure_text(*error),
{
    error.to_string()
}

/// Calls `Value::is_object`, which is true exactly for `Value::Object`, the
/// variant for which `as_object` returns `Some`.
#[verifier::external_body]
pub(crate) fn value_is_object(value: &serde_json::Value) -> (r: bool)
    ensures
        r == json_object(*value).is_some(),
{
    value.is_object()
}

/// Calls `Value::get` with a string key: for an object that has the key it
/// returns that member, for any other value `None`.
#[verifier::external_body]
pub(crate) fn value_member<'a>(value: &'a serde_json::Value, key: &str) -> (r: Option<&'a serde_json::Value>)
    ensures
        match r {
            Some(member) => json_member(*value, key@) == Some(*member),
            None => json_member(*value, key@).is_none(),
        },
{
    value.get(key)
}

/// Calls `Value::as_str`: the string's characters for `Value::String`, else
/// `None`.
#[verifier::external_body]
pub(crate) fn value_text<'a>(value: &'a serde_json::Value) -> (r: Option<&'a str>)
    ensures
        match r {
            Some(s) => json_text(*value) == Some(s@),
            None => json_text(*value).is_none(),
        },
{
    value.as_str()
}

/// Calls `Value::as_u64`: the number for a non-negative integer, else `None`.
#[verifier::external_body]
pub(crate) fn value_uint(value: &serde_json::Value) -> (r: Option<u64>)
    ensures
        r == json_uint(*value),
{
    value.as_u64()
}

/// Calls `Value::from(&str)`, which makes `Value::String` of the same
/// characters: `as_str` returns them, `as_object` and `as_u64` return `None`.
#[verifier::external_body]
pub(crate) fn text_value(s: &str) -> (r: serde_json::Value)
    ensures
        json_text(r) == Some(s@),
        json_object(r).is_none(),
        json_uint(r).is_none(),
{
    serde_json::Value::from(s)
}

/// Calls `Value::from(u16)`, which makes `Value::Number` of that integer:
/// `as_u64` returns it, `as_str` and `as_object` return `None`.
#[verifier::external_body]
pub(crate) fn uint_value(n: u16) -> (r: serde_json::Value)
    ensures
        json_uint(r) == Some(n as u64),
        json_text(r).is_none(),
        json_object(r).is_none(),
{
    serde_json::Value::from(n)
}

/// Makes `Value::Object` of `serde_json::Map::new()`, the object without
/// members: `as_object` returns an empty map, `as_str` and `as_u64` `None`.
#[verifier::external_body]
pub(crate) fn empty_object() -> (r: serde_json::Value)
    ensures
        is_empty_object(r),
        json_text(r).is_none(),
        json_uint(r).is_none(),
{
    serde_json::Value::Object(serde_json::Map::new())
}

/// Calls `serde_json::Map::insert` on the members of an object: the member
/// under the key is set or replaced, the other members stay.
#[verifier::external_body]
pub(crate) fn with_member(object: serde_json::Value, key: &str, member: serde_json::Value) -> (r: serde_json::Value)
    requires
        json_object(object).is_some(),
    ensures
        json_object(r) == Some(json_object(object).unwrap().insert(key@, member)),
        json_text(r).is_none(),
        json_uint(r).is_none(),
{
    let mut object = object;
    if let serde_json::Value::Object(members) = &mut object {
        members.insert(key.to_owned(), member);
    }
    object
}

/// `Value::clone` returns an equal value.
pub assume_specification[ <serde_json::Value as Clone>::clone ](value: &serde_json::Value) -> (r: serde_json::Value)
    ensures
        r == *value,
;

} // verus!
