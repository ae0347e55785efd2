//! JSON documents, read through `serde_json`.
//!
//! A parsed document stays a `serde_json::Value`. What it holds is spoken of as
//! a `JsonTree`; the functions here are the only way in.

use vstd::prelude::*;

verus! {

/// What a JSON value holds.
pub ghost enum JsonTree {
    Null,
    Bool(bool),
    /// A number, with its reading as a signed 64-bit integer where it is an
    /// integer and fits.
    Number(Option<i64>),
    Text(Seq<char>),
    Items(Seq<JsonTree>),
    Members(Map<Seq<char>, JsonTree>),
}

/// `serde_json::Value`, carried through as it is: nothing of its inside is
/// known but through the functions below.
#[verifier::external_type_specification]
#[verifier::external_body]
pub struct ExJsonValue(serde_json::Value);

/// What the given `serde_json::Value` holds.
pub uninterp spec fn json_tree(value: serde_json::Value) -> JsonTree;

/// What `serde_json::from_str` makes of a text: the document, or the message of
/// the error.
pub uninterp spec fn parsed_json(text: Seq<char>) -> Result<JsonTree, Seq<char>>;

/// The member of an object under a key; nothing where the value is no object
/// or has no such member.
pub open spec fn member(tree: JsonTree, key: Seq<char>) -> Option<JsonTree> {
    match tree {
        JsonTree::Members(m) => if m.contains_key(key) {
            Some(m[key])
        } else {
            None
        },
        _ => None,
    }
}

/// The text of a value that is a string.
pub open spec fn text_at(tree: Option<JsonTree>) -> Option<Seq<char>> {
    match tree {
        Some(JsonTree::Text(s)) => Some(s),
        _ => None,
    }
}

/// The integer of a value that is a number with one.
pub open spec fn integer_at(tree: Option<JsonTree>) -> Option<i64> {
    match tree {
        Some(JsonTree::Number(n)) => n,
        _ => None,
    }
}

/// The items of a value that is an array.
pub open spec fn items_at(tree: Option<JsonTree>) -> Option<Seq<JsonTree>> {
    match tree {
        Some(JsonTree::Items(items)) => Some(items),
        _ => None,
    }
}

/// The trees of a sequence of values.
pub open spec fn json_trees(values: Seq<serde_json::Value>) -> Seq<JsonTree> {
    values.map_values(|v: serde_json::Value| json_tree(v))
}

/// Calls `serde_json::from_str` for a `Value` and, on failure, `to_string` of
/// the error. Trusted: the outcome is the one named `parsed_json` of the text.
#[verifier::external_body]
pub(crate) fn parse_json(text: &str) -> (r: Result<serde_json::Value, String>)
    ensures
        match r {
            Ok(v) => parsed_json(text@) == Ok::<JsonTree, Seq<char>>(json_tree(v)),
            Err(e) => parsed_json(text@) == Err::<JsonTree, Seq<char>>(e@),
        },
{
    match serde_json::from_str::<serde_json::Value>(text) {
        Ok(v) => Ok(v),
        Err(e) => Err(e.to_string()),
    }
}

/// Calls `Value::get` with a string key. Trusted: an object hands out the
/// member under that key if it has one; anything else hands out nothing.
#[verifier::external_body]
pub(crate) fn json_member<'a>(value: &'a serde_json::Value, key: &str) -> (r: Option<
    &'a serde_json::Value,
>)
    ensures
        match r {
            Some(v) => member(json_tree(*value), key@) == Some(json_tree(*v)),
            None => member(json_tree(*value), key@) is None,
        },
{
    value.get(key)
}

/// Calls `Value::as_str`. Trusted: a string hands out its text, anything else
/// nothing.
#[verifier::external_body]
pub(crate) fn json_text<'a>(value: &'a serde_json::Value) -> (r: Option<&'a str>)
    ensures
        match r {
            Some(s) => text_at(Some(json_tree(*value))) == Some(s@),
            None => text_at(Some(json_tree(*value))) is None,
        },
{
    value.as_str()
}

/// Calls `Value::as_i64`. Trusted: a number that is an integer within the
/// signed 64-bit range hands out that integer, anything else nothing.
#[verifier::external_body]
pub(crate) fn json_integer(value: &serde_json::Value) -> (r: Option<i64>)
    ensures
        r == integer_at(Some(json_tree(*value))),
{
    value.as_i64()
}

/// Calls `Value::as_array`. Trusted: an array hands out its items in order,
/// anything else nothing.
#[verifier::external_body]
pub(crate) fn json_items<'a>(value: &'a serde_json::Value) -> (r: Option<
    &'a Vec<serde_json::Value>,
>)
    ensures
        match r {
            Some(items) => items_at(Some(json_tree(*value))) == Some(json_trees(items@)),
            None => items_at(Some(json_tree(*value))) is None,
        },
{
    value.as_array()
}

} // verus!
