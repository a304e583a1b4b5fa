//! What the library has from the `serde_json` crate: the parsing of a text
//! into a JSON value, and the reading of such a value.
//!
//! A `Value` is opaque to the verifier. `json_of` names the JSON value that
//! it holds, as a tree that contracts can speak of, and the contracts of
//! this file say of each operation what it returns in terms of that tree.

use vstd::prelude::*;

verus! {

/// A JSON value, as contracts speak of it. Of a number only that it is one
/// is kept: nothing here reads numbers.
pub enum Json {
    Null,
    Bool(bool),
    Number,
    Text(Seq<char>),
    Array(Seq<Json>),
    Object(Map<Seq<char>, Json>),
}

impl Json {
    /// The member of an object under a key, where the value is an object
    /// and has one.
    pub open spec fn member(self, key: Seq<char>) -> Option<Json> {
        match self {
            Json::Object(members) => if members.dom().contains(key) {
                Some(members[key])
            } else {
                None
            },
            _ => None,
        }
    }

    /// The text of a string.
    pub open spec fn text(self) -> Option<Seq<char>> {
        match self {
            Json::Text(text) => Some(text),
            _ => None,
        }
    }

    /// The elements of an array, in their order.
    pub open spec fn items(self) -> Option<Seq<Json>> {
        match self {
            Json::Array(items) => Some(items),
            _ => None,
        }
    }
}

/// `serde_json::Value`, declared so that a value can be held and handed on.
/// Nothing inside it is seen.
#[verifier::external_type_specification]
#[verifier::external_body]
pub struct ExValue(serde_json::Value);

/// The JSON value that a `Value` holds.
pub uninterp spec fn json_of(v: serde_json::Value) -> Json;

/// The JSON value that a text denotes, as `serde_json::from_str` reads it,
/// or nothing where the crate refuses the text.
pub uninterp spec fn json_parsed(text: Seq<char>) -> Option<Json>;

/// The JSON values that the `Value`s of a sequence hold.
pub open spec fn json_of_each(values: Seq<serde_json::Value>) -> Seq<Json> {
    values.map_values(|v: serde_json::Value| json_of(v))
}

/// `serde_json::from_str`, asked for a `Value`. Claimed: whether the text
/// is read, and the JSON value that is read from it, depend on the text
/// alone. The crate's account of a failure is dropped.
#[verifier::external_body]
pub(crate) fn parse_json(text: &str) -> (parsed: Option<serde_json::Value>)
    ensures
        match parsed {
            Some(v) => json_parsed(text@) == Some(json_of(v)),
            None => json_parsed(text@) is None,
        },
{
    serde_json::from_str::<serde_json::Value>(text).ok()
}

/// `Value::get`, with a text as the index. Claimed: it finds the member of
/// that name where the value is an object that has one, and nothing else.
#[verifier::external_body]
pub(crate) fn member<'a>(v: &'a serde_json::Value, key: &str) -> (found: Option<
    &'a serde_json::Value,
>)
    ensures
        match found {
            Some(m) => json_of(*v).member(key@) == Some(json_of(*m)),
            None => json_of(*v).member(key@) is None,
        },
{
    v.get(key)
}

/// `Value::as_str`. Claimed: it returns the text where the value is a
/// string, and nothing where it is anything else.
pub assume_specification[ serde_json::Value::as_str ](v: &serde_json::Value) -> (text: Option<
    &str,
>)
    ensures
        match text {
            Some(t) => json_of(*v).text() == Some(t@),
            None => json_of(*v).text() is None,
        },
;

/// `Value::as_array`. Claimed: it returns the elements in their order where
/// the value is an array, and nothing where it is anything else.
pub assume_specification[ serde_json::Value::as_array ](v: &serde_json::Value) -> (items: Option<
    &Vec<serde_json::Value>,
>)
    ensures
        match items {
            Some(elements) => json_of(*v).items() == Some(json_of_each(elements@)),
            None => json_of(*v).items() is None,
        },
;

/// `Value::is_null`. Claimed: it says whether the value is `null`.
pub assume_specification[ serde_json::Value::is_null ](v: &serde_json::Value) -> (null: bool)
    ensures
        null == (json_of(*v) is Null),
;

} // verus!
