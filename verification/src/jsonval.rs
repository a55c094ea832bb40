//! Trusted boundary around `serde_json`'s generic value: parsing a document
//! and reading single fields out of it. A value of this type is opaque to
//! the verified code, but every read is a function of the value alone, so
//! each outcome is tied to its input through a named result.

use vstd::prelude::*;

verus! {

#[verifier::external_type_specification]
#[verifier::external_body]
pub struct ExJsonValue(serde_json::Value);

/// What the text parses to as a JSON document, if it is one. Parsing is a
/// function of the text alone; the value itself stays opaque here.
pub uninterp spec fn json_parsed_of(text: Seq<char>) -> Option<serde_json::Value>;

/// The value under the given key, if the value is an object carrying it.
/// The lookup is a function of the value and the key alone.
pub uninterp spec fn json_member_of(v: serde_json::Value, key: Seq<char>) -> Option<
    serde_json::Value,
>;

/// The text of a JSON string value, if the value is one.
pub uninterp spec fn json_str_of(v: serde_json::Value) -> Option<Seq<char>>;

/// The number of a JSON number value that fits an unsigned 64-bit integer.
pub uninterp spec fn json_u64_of(v: serde_json::Value) -> Option<u64>;

/// The number of a JSON number value that fits a signed 64-bit integer.
pub uninterp spec fn json_i64_of(v: serde_json::Value) -> Option<i64>;

/// The truth value of a JSON boolean value, if the value is one.
pub uninterp spec fn json_bool_of(v: serde_json::Value) -> Option<bool>;

/// The elements of a JSON array value, if the value is one.
pub uninterp spec fn json_elems_of(v: serde_json::Value) -> Option<Seq<serde_json::Value>>;

/// Relies on `serde_json::Value`'s `Clone`: a deep copy, equal member for
/// member to its source.
pub assume_specification[ <serde_json::Value as Clone>::clone ](
    v: &serde_json::Value,
) -> (res: serde_json::Value)
    ensures
        res == *v,
;

/// Relies on `serde_json::from_str::<Value>`: parses a JSON document; the
/// outcome depends only on the text, and a text that is no JSON document
/// yields nothing (the parser returns an error rather than panicking).
#[verifier::external_body]
pub(crate) fn parse_json(text: &str) -> (r: Option<serde_json::Value>)
    ensures
        r == json_parsed_of(text@),
{
    serde_json::from_str(text).ok()
}

/// Relies on `serde_json::Value::get`: the value under the given key of a
/// JSON object, present exactly when the value is an object carrying the
/// key.
#[verifier::external_body]
pub(crate) fn json_get<'a>(v: &'a serde_json::Value, key: &str) -> (r: Option<
    &'a serde_json::Value,
>)
    ensures
        (r is Some) == (json_member_of(*v, key@) is Some),
        r is Some ==> *r->Some_0 == json_member_of(*v, key@)->Some_0,
{
    v.get(key)
}

/// Relies on `serde_json::Value::get` and the value's `Clone`: an owned,
/// equal copy of the value under the given key, if present.
#[verifier::external_body]
pub(crate) fn json_get_cloned(v: &serde_json::Value, key: &str) -> (r: Option<serde_json::Value>)
    ensures
        r == json_member_of(*v, key@),
{
    v.get(key).cloned()
}

/// Relies on `serde_json::Value::as_str`: the text of a JSON string value.
#[verifier::external_body]
pub(crate) fn json_as_string(v: &serde_json::Value) -> (r: Option<String>)
    ensures
        (r is Some) == (json_str_of(*v) is Some),
        r is Some ==> r->Some_0@ == json_str_of(*v)->Some_0,
{
    v.as_str().map(|s| s.to_owned())
}

/// Relies on `serde_json::Value::as_u64`: the value of a JSON number that
/// fits an unsigned 64-bit integer.
#[verifier::external_body]
pub(crate) fn json_as_u64(v: &serde_json::Value) -> (r: Option<u64>)
    ensures
        r == json_u64_of(*v),
{
    v.as_u64()
}

/// Relies on `serde_json::Value::as_i64`: the value of a JSON number that
/// fits a signed 64-bit integer.
#[verifier::external_body]
pub(crate) fn json_as_i64(v: &serde_json::Value) -> (r: Option<i64>)
    ensures
        r == json_i64_of(*v),
{
    v.as_i64()
}

/// Relies on `serde_json::Value::as_bool`: the value of a JSON boolean.
#[verifier::external_body]
pub(crate) fn json_as_bool(v: &serde_json::Value) -> (r: Option<bool>)
    ensures
        r == json_bool_of(*v),
{
    v.as_bool()
}

/// Relies on `serde_json::Value::as_array`: the elements of a JSON array
/// value.
#[verifier::external_body]
pub(crate) fn json_as_array<'a>(v: &'a serde_json::Value) -> (r: Option<
    &'a Vec<serde_json::Value>,
>)
    ensures
        (r is Some) == (json_elems_of(*v) is Some),
        r is Some ==> r->Some_0@ == json_elems_of(*v)->Some_0,
{
    v.as_array()
}

/// The unsigned number under a key of an object, when both lookups succeed.
pub open spec fn spec_member_u64(v: serde_json::Value, key: Seq<char>) -> Option<u64> {
    match json_member_of(v, key) {
        Some(f) => json_u64_of(f),
        None => None,
    }
}

/// The signed number under a key of an object, when both lookups succeed.
pub open spec fn spec_member_i64(v: serde_json::Value, key: Seq<char>) -> Option<i64> {
    match json_member_of(v, key) {
        Some(f) => json_i64_of(f),
        None => None,
    }
}

/// The boolean under a key of an object, when both lookups succeed.
pub open spec fn spec_member_bool(v: serde_json::Value, key: Seq<char>) -> Option<bool> {
    match json_member_of(v, key) {
        Some(f) => json_bool_of(f),
        None => None,
    }
}

/// The string under a key of an object, when both lookups succeed.
pub open spec fn spec_member_str(v: serde_json::Value, key: Seq<char>) -> Option<Seq<char>> {
    match json_member_of(v, key) {
        Some(f) => json_str_of(f),
        None => None,
    }
}

/// Reads an unsigned number field out of a JSON object.
pub(crate) fn get_member_u64(v: &serde_json::Value, key: &str) -> (r: Option<u64>)
    ensures
        r == spec_member_u64(*v, key@),
{
    match json_get(v, key) {
        Some(f) => json_as_u64(f),
        None => None,
    }
}

/// Reads a signed number field out of a JSON object.
pub(crate) fn get_member_i64(v: &serde_json::Value, key: &str) -> (r: Option<i64>)
    ensures
        r == spec_member_i64(*v, key@),
{
    match json_get(v, key) {
        Some(f) => json_as_i64(f),
        None => None,
    }
}

/// Reads a boolean field out of a JSON object.
pub(crate) fn get_member_bool(v: &serde_json::Value, key: &str) -> (r: Option<bool>)
    ensures
        r == spec_member_bool(*v, key@),
{
    match json_get(v, key) {
        Some(f) => json_as_bool(f),
        None => None,
    }
}

/// Reads a string field out of a JSON object.
pub(crate) fn get_member_string(v: &serde_json::Value, key: &str) -> (r: Option<String>)
    ensures
        (r is Some) == (spec_member_str(*v, key@) is Some),
        r is Some ==> r->Some_0@ == spec_member_str(*v, key@)->Some_0,
{
    match json_get(v, key) {
        Some(f) => json_as_string(f),
        None => None,
    }
}

/// The JSON rendering of an array of strings, e.g. `["A","B"]`. It is a
/// function of the element texts alone; its characters are only named here.
pub uninterp spec fn json_string_array_of(items: Seq<Seq<char>>) -> Seq<char>;

/// Relies on `serde_json::to_string` for `Vec<String>`: serializing a list
/// of strings cannot fail, and the rendering depends on the elements alone.
#[verifier::external_body]
pub(crate) fn json_string_array(items: &Vec<String>) -> (r: String)
    ensures
        r@ == json_string_array_of(items.deep_view()),
{
    serde_json::to_string(items).unwrap_or_default()
}

} // verus!
