//! JSON, as `serde_json` reads and writes it.
//!
//! A document in memory is a `serde_json::Value`. Contracts speak of it
//! through `json_tree`, the document as a mathematical tree. The functions of
//! `serde_json` that the relay calls are given their contracts here; none of
//! these contracts is proved.

use vstd::prelude::*;
use serde_json::Value;

verus! {

/// A JSON document as a tree of plain values. What a number holds is left
/// out: nothing here reads it.
pub enum Json {
    Null,
    Bool(bool),
    Number,
    Text(Seq<char>),
    Array(Seq<Json>),
    Object(Map<Seq<char>, Json>),
}

impl Json {
    /// The member `key` of an object; `None` for a missing key and for
    /// anything that is no object.
    pub open spec fn member(self, key: Seq<char>) -> Option<Json> {
        match self {
            Json::Object(members) => if members.contains_key(key) {
                Some(members[key])
            } else {
                None
            },
            _ => None,
        }
    }

    /// The text of a string; `None` for anything else.
    pub open spec fn text(self) -> Option<Seq<char>> {
        match self {
            Json::Text(text) => Some(text),
            _ => None,
        }
    }

    /// The elements of an array; `None` for anything else.
    pub open spec fn items(self) -> Option<Seq<Json>> {
        match self {
            Json::Array(items) => Some(items),
            _ => None,
        }
    }
}

/// A JSON document in memory, `serde_json::Value`.
#[verifier::external_type_specification]
#[verifier::external_body]
pub struct ExValue(serde_json::Value);

/// Why a text is not JSON, `serde_json::Error`.
#[verifier::external_type_specification]
#[verifier::external_body]
pub struct ExError(serde_json::Error);

/// What a `serde_json::Value` holds: null, a boolean, a number, a string, an
/// array of documents in order, or an object that maps each of its keys to a
/// document.
pub uninterp spec fn json_tree(value: Value) -> Json;

/// The document that `serde_json::from_str` reads from `text`, or `None`
/// where it reports an error.
pub uninterp spec fn json_parsed(text: Seq<char>) -> Option<Json>;

/// The JSON string literal that `serde_json` writes for `text`: the quoted
/// and escaped form that `Value::String(text)` displays as.
pub uninterp spec fn json_quoted(text: Seq<char>) -> Seq<char>;

/// The trees of a list of documents, in order.
pub open spec fn json_trees(values: Seq<Value>) -> Seq<Json> {
    Seq::new(values.len(), |i: int| json_tree(values[i]))
}

/// Calls `serde_json::from_str` for a `Value`. It returns `Ok` exactly where
/// `json_parsed` names a document, and the value then holds that document.
#[verifier::external_body]
pub(crate) fn parse_value(text: &str) -> (r: Result<Value, serde_json::Error>)
    ensures
        match r {
            Ok(value) => json_parsed(text@) == Some(json_tree(value)),
            Err(_) => json_parsed(text@) is None,
        },
{
    serde_json::from_str::<Value>(text)
}

/// Calls `Value::get` with a string key. It finds the member of that name
/// where the value is an object that has one, and nothing otherwise.
#[verifier::external_body]
pub(crate) fn value_get<'a>(value: &'a Value, key: &str) -> (r: Option<&'a Value>)
    ensures
        match r {
            Some(found) => json_tree(*value).member(key@) == Some(json_tree(*found)),
            None => json_tree(*value).member(key@) is None,
        },
{
    value.get(key)
}

/// `Value::as_str` returns the text of a string, and `None` for a value of
/// any other kind.
pub assume_specification<'a>[ Value::as_str ](value: &'a Value) -> (r: Option<&'a str>)
    ensures
        match r {
            Some(text) => json_tree(*value).text() == Some(text@),
            None => json_tree(*value).text() is None,
        },
;

/// `Value::as_array` returns the elements of an array, and `None` for a
/// value of any other kind.
pub assume_specification<'a>[ Value::as_array ](value: &'a Value) -> (r: Option<&'a Vec<Value>>)
    ensures
        match r {
            Some(items) => json_tree(*value).items() == Some(json_trees(items@)),
            None => json_tree(*value).items() is None,
        },
;

/// Displays `Value::String(text)`, which writes `text` as a JSON string
/// literal. The result is the literal that `json_quoted` names.
#[verifier::external_body]
pub(crate) fn quote(text: &str) -> (r: String)
    ensures
        r@ == json_quoted(text@),
{
    Value::String(text.to_owned()).to_string()
}

} // verus!
