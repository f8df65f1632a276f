//! JSON documents, as `serde_json` reads them.
//!
//! A document is held as a `serde_json::Value`; what the contracts say of
//! one, they say of its model, a `Json`.

use vstd::prelude::*;

verus! {

/// What a JSON document holds. Of a number only that it is one.
pub enum Json {
    Null,
    Bool(bool),
    Number,
    String(Seq<char>),
    Array(Seq<Json>),
    Object(Map<Seq<char>, Json>),
}

#[verifier::external_type_specification]
#[verifier::external_body]
pub struct ExJsonValue(serde_json::Value);

/// What a `serde_json::Value` holds.
pub uninterp spec fn json_model(value: serde_json::Value) -> Json;

/// What `serde_json::from_str` reads from a text as a `Value`: the
/// document, or `None` where the text is not one JSON document.
pub uninterp spec fn json_parsed(text: Seq<char>) -> Option<Json>;

/// The member called `key` of a document that is an object.
pub open spec fn member_of(document: Json, key: Seq<char>) -> Option<Json> {
    match document {
        Json::Object(members) => if members.contains_key(key) {
            Some(members[key])
        } else {
            None
        },
        _ => None,
    }
}

/// The characters of a document that is a string.
pub open spec fn string_of(document: Json) -> Option<Seq<char>> {
    match document {
        Json::String(s) => Some(s),
        _ => None,
    }
}

/// Calls `serde_json::from_str` for a `Value`. Trusted: what it reads
/// depends on the text alone, and the error says no more than that the text
/// is no document.
#[verifier::external_body]
pub(crate) fn parse(text: &str) -> (r: Option<serde_json::Value>)
    ensures
        match r {
            Some(value) => json_parsed(text@) == Some(json_model(value)),
            None => json_parsed(text@) is None,
        },
{
    serde_json::from_str(text).ok()
}

/// Calls `Value::get` with a string. Trusted: it finds the member of that
/// name where the value is an object that has one, and nothing else.
#[verifier::external_body]
pub(crate) fn member<'a>(value: &'a serde_json::Value, key: &str) -> (r: Option<
    &'a serde_json::Value,
>)
    ensures
        match r {
            Some(found) => member_of(json_model(*value), key@) == Some(json_model(*found)),
            None => member_of(json_model(*value), key@) is None,
        },
{
    value.get(key)
}

/// Calls `Value::as_str`. Trusted: it gives the characters of a value that
/// is a string, and nothing of any other value.
#[verifier::external_body]
pub(crate) fn as_str<'a>(value: &'a serde_json::Value) -> (r: Option<&'a str>)
    ensures
        match r {
            Some(s) => string_of(json_model(*value)) == Some(s@),
            None => string_of(json_model(*value)) is None,
        },
{
    value.as_str()
}

} // verus!
