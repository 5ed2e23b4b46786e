//! The boundary to `serde_json`: its document type, the model that
//! contracts have of a document, and the calls themselves.

use serde_json::Value;
use vstd::prelude::*;

verus! {

/// A JSON document as contracts speak of it.
pub enum Json {
    Null,
    Bool(bool),
    /// A number. Which one, contracts do not say.
    Number,
    Text(Seq<char>),
    Array(Seq<Json>),
    /// An object: its members by their keys.
    Object(Map<Seq<char>, Json>),
}

/// The elements of an array; `None` for every other document.
pub open spec fn elements(json: Json) -> Option<Seq<Json>> {
    match json {
        Json::Array(items) => Some(items),
        _ => None,
    }
}

/// The member of an object under `key`; `None` for an object without such
/// a member and for every other document.
pub open spec fn member(json: Json, key: Seq<char>) -> Option<Json> {
    match json {
        Json::Object(members) => if members.contains_key(key) {
            Some(members[key])
        } else {
            None
        },
        _ => None,
    }
}

/// The text of a string; `None` for every other document.
pub open spec fn text(json: Json) -> Option<Seq<char>> {
    match json {
        Json::Text(words) => Some(words),
        _ => None,
    }
}

/// The flag of a boolean; `None` for every other document.
pub open spec fn flag(json: Json) -> Option<bool> {
    match json {
        Json::Bool(flag) => Some(flag),
        _ => None,
    }
}

/// A JSON document of `serde_json`. Nothing inside it is visible here: it is
/// read only through the functions below.
#[verifier::external_type_specification]
#[verifier::external_body]
pub struct ExValue(serde_json::Value);

/// What a `serde_json::Value` holds.
pub uninterp spec fn json_of(value: Value) -> Json;

/// What `serde_json::from_str::<Value>` reads from `text`: the document, or
/// `None` where it reports an error.
pub uninterp spec fn parsed_json(text: Seq<char>) -> Option<Json>;

/// The JSON string literal, quotes and escapes included, that
/// `serde_json::to_string` writes for `text`, or `None` where it reports an
/// error.
pub uninterp spec fn string_literal(text: Seq<char>) -> Option<Seq<char>>;

/// The documents that a run of values holds, one by one.
pub open spec fn jsons_of(values: Seq<Value>) -> Seq<Json> {
    Seq::new(values.len(), |i: int| json_of(values[i]))
}

/// Calls `serde_json::from_str::<Value>`. The contract only names the
/// outcome: the same text always gives the same document or the same
/// failure.
#[verifier::external_body]
pub(crate) fn parse_document(text: &str) -> (document: Option<Value>)
    ensures
        match document {
            Some(value) => parsed_json(text@) == Some(json_of(value)),
            None => parsed_json(text@) is None,
        },
{
    serde_json::from_str::<Value>(text).ok()
}

/// Calls `Value::as_array`, which hands out the vector of an array and
/// `None` for every other kind of value.
#[verifier::external_body]
pub(crate) fn items_of(value: &Value) -> (items: Option<&Vec<Value>>)
    ensures
        match items {
            Some(list) => elements(json_of(*value)) == Some(jsons_of(list@)),
            None => elements(json_of(*value)) is None,
        },
{
    value.as_array()
}

/// Calls `Value::get` with a string key, which looks the key up in an object
/// and gives `None` for a missing key and for every other kind of value.
#[verifier::external_body]
pub(crate) fn field_of<'a>(value: &'a Value, key: &str) -> (field: Option<&'a Value>)
    ensures
        match field {
            Some(found) => member(json_of(*value), key@) == Some(json_of(*found)),
            None => member(json_of(*value), key@) is None,
        },
{
    value.get(key)
}

/// Calls `Value::as_str`, which hands out the text of a string and `None`
/// for every other kind of value.
#[verifier::external_body]
pub(crate) fn text_of(value: &Value) -> (words: Option<&str>)
    ensures
        words.deep_view() == text(json_of(*value)),
{
    value.as_str()
}

/// Calls `Value::as_bool`, which hands out the flag of a boolean and `None`
/// for every other kind of value.
#[verifier::external_body]
pub(crate) fn flag_of(value: &Value) -> (found: Option<bool>)
    ensures
        found == flag(json_of(*value)),
{
    value.as_bool()
}

/// Calls `serde_json::to_string` on a string slice. The contract only names
/// the outcome: the same text always gives the same literal.
#[verifier::external_body]
pub(crate) fn quote(text: &str) -> (literal: Option<String>)
    ensures
        literal.deep_view() == string_literal(text@),
{
    serde_json::to_string(text).ok()
}

} // verus!
