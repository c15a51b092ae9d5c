//! JSON documents as `serde_json` parses them, and what this crate reads
//! from one.

use vstd::prelude::*;

verus! {

/// The mathematical content of a JSON document. Numbers are not told apart:
/// nothing here reads one.
pub enum Json {
    Null,
    Bool(bool),
    Number,
    Text(Seq<char>),
    Array(Seq<Json>),
    Object(Map<Seq<char>, Json>),
}

/// `serde_json::Value`, a parsed JSON document. Nothing is known of a value
/// but what `json_view` and the functions below tell.
#[verifier::external_type_specification]
#[verifier::external_body]
pub struct ExValue(serde_json::Value);

/// What a `serde_json::Value` holds: its variant, and beneath an array or
/// an object the content of each element and of each member.
pub uninterp spec fn json_view(value: serde_json::Value) -> Json;

/// The document that `text` is parsed to by `serde_json::from_str`, or
/// `None` where `text` is no complete JSON document.
pub uninterp spec fn json_text(text: Seq<char>) -> Option<Json>;

/// The member `key` of `doc`, where `doc` is an object that has one.
pub open spec fn member_of(doc: Json, key: Seq<char>) -> Option<Json> {
    match doc {
        Json::Object(fields) => if fields.contains_key(key) {
            Some(fields[key])
        } else {
            None
        },
        _ => None,
    }
}

/// The text of `doc`, where `doc` is a JSON string.
pub open spec fn text_of(doc: Json) -> Option<Seq<char>> {
    match doc {
        Json::Text(text) => Some(text),
        _ => None,
    }
}

/// `serde_json::from_str` at the type `serde_json::Value`. The parser reads
/// nothing but `text`, so its result is a function of `text`: it is named
/// `json_text`. A parse error becomes `None`.
#[verifier::external_body]
pub(crate) fn parse(text: &str) -> (parsed: Option<serde_json::Value>)
    ensures
        match parsed {
            Some(value) => json_text(text@) == Some(json_view(value)),
            None => json_text(text@) is None,
        },
{
    serde_json::from_str::<serde_json::Value>(text).ok()
}

/// `serde_json::Value::get` with a string index: the member `key` where
/// `value` is an object that has it, and `None` for every other value.
#[verifier::external_body]
pub(crate) fn member<'a>(value: &'a serde_json::Value, key: &str) -> (found: Option<
    &'a serde_json::Value,
>)
    ensures
        match found {
            Some(inner) => member_of(json_view(*value), key@) == Some(json_view(*inner)),
            None => member_of(json_view(*value), key@) is None,
        },
{
    value.get(key)
}

/// `serde_json::Value::as_str`: the text where `value` is a JSON string,
/// and `None` for every other value.
#[verifier::external_body]
pub(crate) fn text<'a>(value: &'a serde_json::Value) -> (found: Option<&'a str>)
    ensures
        match found {
            Some(inner) => text_of(json_view(*value)) == Some(inner@),
            None => text_of(json_view(*value)) is None,
        },
{
    value.as_str()
}

} // verus!
