//! Access to JSON documents produced by system tools, through `serde_json`.
//!
//! A `serde_json::Value` is opaque here and has no view: each call's result
//! is named as a function of its arguments (the text, or the value itself),
//! and the readers built on them are stated over those names.

use vstd::prelude::*;

verus! {

/// `serde_json::Value`, carried through unread.
#[verifier::external_type_specification]
#[verifier::external_body]
pub struct ExJsonValue(serde_json::Value);

/// The document that `serde_json::from_str::<Value>` makes of a text, `None`
/// where the text is not JSON; a function of the text alone.
pub uninterp spec fn json_parsed(text: Seq<char>) -> Option<serde_json::Value>;

/// The elements that `Value::as_array` gives of a value, `None` where it is
/// no array.
pub uninterp spec fn json_array_of(v: serde_json::Value) -> Option<Seq<serde_json::Value>>;

/// The value that `Value[key]` gives: the member `key` of an object, `Null`
/// where there is none.
pub uninterp spec fn json_member_of(v: serde_json::Value, key: Seq<char>) -> serde_json::Value;

/// The text that `Value::as_str` gives of a value, `None` where it is no
/// JSON string.
pub uninterp spec fn json_str_of(v: serde_json::Value) -> Option<Seq<char>>;

/// The number that `Value::as_u64` gives of a value, `None` where it is no
/// JSON number that fits a `u64`.
pub uninterp spec fn json_u64_of(v: serde_json::Value) -> Option<u64>;

/// `serde_json::from_str::<Value>`: the parsed document, `None` where the
/// text is not JSON. Claimed: the result is the one `json_parsed` names for
/// the text. Not stated: which texts parse, or what a document holds, beyond
/// what the accessors below name.
#[verifier::external_body]
pub(crate) fn json_parse(text: &str) -> (r: Option<serde_json::Value>)
    ensures
        r == json_parsed(text@),
{
    serde_json::from_str(text).ok()
}

/// `Value::as_array`, with the elements cloned. Claimed: the elements are
/// those `json_array_of` names, `None` exactly where it names none.
#[verifier::external_body]
pub(crate) fn json_as_array(v: &serde_json::Value) -> (r: Option<Vec<serde_json::Value>>)
    ensures
        match r {
            Some(a) => json_array_of(*v) == Some(a@),
            None => json_array_of(*v) is None,
        },
{
    v.as_array().cloned()
}

/// `Value[key]`, cloned. Claimed: the member is the one `json_member_of`
/// names.
#[verifier::external_body]
pub(crate) fn json_member(v: &serde_json::Value, key: &str) -> (r: serde_json::Value)
    ensures
        r == json_member_of(*v, key@),
{
    v[key].clone()
}

/// `Value::as_str`, copied into a `String`. Claimed: its text is the one
/// `json_str_of` names, `None` exactly where it names none.
#[verifier::external_body]
pub(crate) fn json_as_str(v: &serde_json::Value) -> (r: Option<String>)
    ensures
        text_opt(r) == json_str_of(*v),
{
    v.as_str().map(|s| s.to_string())
}

/// `Value::as_u64`. Claimed: the number `json_u64_of` names.
#[verifier::external_body]
pub(crate) fn json_as_u64(v: &serde_json::Value) -> (r: Option<u64>)
    ensures
        r == json_u64_of(*v),
{
    v.as_u64()
}

/// The text of an optional string.
pub open spec fn text_opt(o: Option<String>) -> Option<Seq<char>> {
    match o {
        Some(s) => Some(s@),
        None => None,
    }
}

/// The text of member `key`, where it is a JSON string.
pub open spec fn member_text(v: serde_json::Value, key: Seq<char>) -> Option<Seq<char>> {
    json_str_of(json_member_of(v, key))
}

/// The number of member `key`, where it is a `u64`.
pub open spec fn member_number(v: serde_json::Value, key: Seq<char>) -> Option<u64> {
    json_u64_of(json_member_of(v, key))
}

/// The elements of member `key`, where it is an array.
pub open spec fn member_elements(v: serde_json::Value, key: Seq<char>) -> Option<Seq<serde_json::Value>> {
    json_array_of(json_member_of(v, key))
}

/// The objects of a document that is one object or an array of objects.
pub open spec fn json_items(doc: serde_json::Value) -> Seq<serde_json::Value> {
    match json_array_of(doc) {
        Some(a) => a,
        None => seq![doc],
    }
}

/// The text of member `key`, where it is a JSON string.
pub fn member_str(v: &serde_json::Value, key: &str) -> (r: Option<String>)
    ensures
        text_opt(r) == member_text(*v, key@),
{
    let m = json_member(v, key);
    json_as_str(&m)
}

/// The number of member `key`, where it is a `u64`.
pub fn member_u64(v: &serde_json::Value, key: &str) -> (r: Option<u64>)
    ensures
        r == member_number(*v, key@),
{
    let m = json_member(v, key);
    json_as_u64(&m)
}

/// The elements of member `key`, where it is an array.
pub fn member_array(v: &serde_json::Value, key: &str) -> (r: Option<Vec<serde_json::Value>>)
    ensures
        match r {
            Some(a) => member_elements(*v, key@) == Some(a@),
            None => member_elements(*v, key@) is None,
        },
{
    let m = json_member(v, key);
    json_as_array(&m)
}

} // verus!
