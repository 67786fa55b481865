//! JSON documents, read by `serde_json` and seen here through what they
//! hold.

use vstd::prelude::*;

verus! {

/// What a JSON value holds. A number is told apart from the rest and
/// nothing more: nothing here reads one.
pub enum Json {
    Null,
    Bool(bool),
    Number,
    Text(Seq<char>),
    Array(Seq<Json>),
    Object(Map<Seq<char>, Json>),
}

/// `serde_json::Value`, carried through as it is.
#[verifier::external_type_specification]
#[verifier::external_body]
pub struct ExJsonValue(serde_json::Value);

/// `serde_json::Error`, carried through as it is.
#[verifier::external_type_specification]
#[verifier::external_body]
pub struct ExJsonError(serde_json::Error);

/// What a value of `serde_json` holds.
pub uninterp spec fn json_of(value: serde_json::Value) -> Json;

/// The document that a text is read as, `None` where it is no JSON.
pub uninterp spec fn json_parsed(text: Seq<char>) -> Option<Json>;

/// What each value of a list holds.
pub open spec fn jsons_of(values: Seq<serde_json::Value>) -> Seq<Json> {
    values.map_values(|v: serde_json::Value| json_of(v))
}

/// The text that member `key` of an object holds, where `item` is an
/// object with such a member and the member is a string.
pub open spec fn text_member(item: Json, key: Seq<char>) -> Option<Seq<char>> {
    match item {
        Json::Object(members) => if members.contains_key(key) {
            match members[key] {
                Json::Text(text) => Some(text),
                _ => None,
            }
        } else {
            None
        },
        _ => None,
    }
}

/// `serde_json::from_str` at the type `Value`: reads a text as one JSON
/// document. Whether it is one, and which, depends on the text alone.
#[verifier::external_body]
pub(crate) fn parse_json(text: &str) -> (read: Result<serde_json::Value, serde_json::Error>)
    ensures
        match read {
            Ok(value) => json_parsed(text@) == Some(json_of(value)),
            Err(_) => json_parsed(text@) is None,
        },
{
    serde_json::from_str::<serde_json::Value>(text)
}

/// `serde_json::Value::as_array`: the items of the value where it is an
/// array, and `None` where it is anything else.
#[verifier::external_body]
pub(crate) fn as_array(value: &serde_json::Value) -> (items: Option<&Vec<serde_json::Value>>)
    ensures
        match items {
            Some(list) => json_of(*value) == Json::Array(jsons_of(list@)),
            None => !(json_of(*value) is Array),
        },
{
    value.as_array()
}

/// `serde_json::Value::get` with a string index: the member of that name
/// where the value is an object that has one, and `None` otherwise.
#[verifier::external_body]
pub(crate) fn get_member<'a>(value: &'a serde_json::Value, key: &str) -> (member: Option<
    &'a serde_json::Value,
>)
    ensures
        match member {
            Some(found) => json_of(*value) is Object && json_of(*value)->Object_0.contains_key(
                key@,
            ) && json_of(*value)->Object_0[key@] == json_of(*found),
            None => !(json_of(*value) is Object && json_of(*value)->Object_0.contains_key(key@)),
        },
{
    value.get(key)
}

/// `serde_json::Value::as_str`: the text of the value where it is a
/// string, and `None` where it is anything else.
#[verifier::external_body]
pub(crate) fn as_text<'a>(value: &'a serde_json::Value) -> (text: Option<&'a str>)
    ensures
        match text {
            Some(held) => json_of(*value) == Json::Text(held@),
            None => !(json_of(*value) is Text),
        },
{
    value.as_str()
}

/// The text of member `key` of `item`, where it is an object with such a
/// member that is a string.
pub fn member_text(item: &serde_json::Value, key: &str) -> (text: Option<String>)
    ensures
        match text {
            Some(held) => text_member(json_of(*item), key@) == Some(held@),
            None => text_member(json_of(*item), key@) is None,
        },
{
    match get_member(item, key) {
        Some(member) => match as_text(member) {
            Some(held) => Some(String::from_str(held)),
            None => None,
        },
        None => None,
    }
}

} // verus!
