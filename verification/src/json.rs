//! JSON values. The library carries them as `serde_json::Value` and speaks of
//! them as mathematical trees.

use vstd::prelude::*;
use vstd::utf8::*;

use crate::text::{checked_text, decimal, opt_text};

verus! {

/// A JSON value. A number is its decimal text; an object is a map, so the order
/// of its members does not count.
pub enum JsonTree {
    Null,
    Bool(bool),
    Number(Seq<char>),
    Text(Seq<char>),
    List(Seq<JsonTree>),
    Object(Map<Seq<char>, JsonTree>),
}

/// `serde_json::Value`.
#[verifier::external_type_specification]
#[verifier::external_body]
pub struct ExValue(serde_json::Value);

/// What a `serde_json::Value` holds.
pub uninterp spec fn json_tree(value: serde_json::Value) -> JsonTree;

/// `Value::clone`: the copy holds what the original holds.
pub assume_specification[ <serde_json::Value as Clone>::clone ](
    value: &serde_json::Value,
) -> (copy: serde_json::Value)
    ensures
        json_tree(copy) == json_tree(*value),
;

/// `Value::as_str`: the text of a JSON string, and nothing for any other value.
pub assume_specification[ serde_json::Value::as_str ](value: &serde_json::Value) -> (text: Option<
    &str,
>)
    ensures
        match json_tree(*value) {
            JsonTree::Text(s) => text is Some && text->Some_0@ == s,
            _ => text is None,
        },
;

/// `Value::as_bool`: the truth value of a JSON boolean, and nothing for any other
/// value.
pub assume_specification[ serde_json::Value::as_bool ](value: &serde_json::Value) -> (truth: Option<
    bool,
>)
    ensures
        truth == match json_tree(*value) {
            JsonTree::Bool(b) => Some(b),
            _ => None,
        },
;

/// `Value::is_null`: whether the value is JSON's `null`.
pub assume_specification[ serde_json::Value::is_null ](value: &serde_json::Value) -> (null: bool)
    ensures
        null == (json_tree(*value) == JsonTree::Null),
;

/// `Value::get` with a string index: the member of an object with that name, and
/// nothing if there is no such member or the value is no object.
#[verifier::external_body]
pub(crate) fn member<'a>(value: &'a serde_json::Value, field: &str) -> (found: Option<&'a serde_json::Value>)
    ensures
        match member_tree(json_tree(*value), field@) {
            Some(tree) => found is Some && json_tree(*found->Some_0) == tree,
            None => found is None,
        },
{
    value.get(field)
}

/// The JSON value that a text spells, or nothing where `serde_json::from_str`
/// finds it malformed.
pub uninterp spec fn json_of(text: Seq<char>) -> Option<JsonTree>;

/// `serde_json::from_str` into a `Value`. The error of a malformed text is
/// dropped. `{}` is the empty object.
#[verifier::external_body]
pub(crate) fn parse_json(text: &str) -> (parsed: Option<serde_json::Value>)
    ensures
        match parsed {
            Some(value) => json_of(text@) == Some(json_tree(value)),
            None => json_of(text@) is None,
        },
        text@ == "{}"@ ==> parsed is Some && json_tree(parsed->Some_0) == JsonTree::Object(
            Map::empty(),
        ),
{
    serde_json::from_str::<serde_json::Value>(text).ok()
}

/// `Value::String`: a JSON string.
#[verifier::external_body]
pub(crate) fn json_string(text: &str) -> (value: serde_json::Value)
    ensures
        json_tree(value) == JsonTree::Text(text@),
{
    serde_json::Value::String(text.to_string())
}

/// `Value::Bool`: a JSON boolean.
#[verifier::external_body]
pub(crate) fn json_bool(truth: bool) -> (value: serde_json::Value)
    ensures
        json_tree(value) == JsonTree::Bool(truth),
{
    serde_json::Value::Bool(truth)
}

/// `Value::from` an unsigned integer: a JSON number.
#[verifier::external_body]
pub(crate) fn json_number(n: u32) -> (value: serde_json::Value)
    ensures
        json_tree(value) == JsonTree::Number(decimal(n as nat)),
{
    serde_json::Value::from(n)
}

/// `Value::Array`: a JSON array.
#[verifier::external_body]
pub(crate) fn json_array(items: Vec<serde_json::Value>) -> (value: serde_json::Value)
    ensures
        json_tree(value) == JsonTree::List(trees(items@)),
{
    serde_json::Value::Array(items)
}

/// `serde_json::Map`.
#[verifier::external_type_specification]
#[verifier::external_body]
#[verifier::reject_recursive_types(K)]
#[verifier::reject_recursive_types(V)]
pub struct ExMap<K, V>(serde_json::Map<K, V>);

/// What a `serde_json::Map` holds.
pub uninterp spec fn members_of(members: serde_json::Map<String, serde_json::Value>) -> Map<
    Seq<char>,
    JsonTree,
>;

/// `serde_json::Map::new`: no members.
#[verifier::external_body]
pub(crate) fn no_members() -> (members: serde_json::Map<String, serde_json::Value>)
    ensures
        (members_of(members) == Map::<Seq<char>, JsonTree>::empty()),
{
    serde_json::Map::new()
}

/// `serde_json::Map::insert`: adds a member, or updates the value of the member
/// with that name. The old value is dropped.
#[verifier::external_body]
pub(crate) fn put(
    members: &mut serde_json::Map<String, serde_json::Value>,
    name: &str,
    value: serde_json::Value,
)
    ensures
        members_of(*final(members)) == members_of(*old(members)).insert(name@, json_tree(value)),
{
    members.insert(name.to_string(), value);
}

/// `Value::Object`: a JSON object.
#[verifier::external_body]
pub(crate) fn json_object(members: serde_json::Map<String, serde_json::Value>) -> (value:
    serde_json::Value)
    ensures
        json_tree(value) == JsonTree::Object(members_of(members)),
{
    serde_json::Value::Object(members)
}

/// What each value holds.
pub open spec fn trees(values: Seq<serde_json::Value>) -> Seq<JsonTree> {
    values.map_values(|value: serde_json::Value| json_tree(value))
}

/// The member of an object with a given name.
pub open spec fn member_tree(tree: JsonTree, field: Seq<char>) -> Option<JsonTree> {
    match tree {
        JsonTree::Object(members) if members.contains_key(field) => Some(members[field]),
        _ => None,
    }
}

/// The member of an object with a given name, if it is a string.
pub open spec fn text_member(tree: JsonTree, field: Seq<char>) -> Option<Seq<char>> {
    match member_tree(tree, field) {
        Some(JsonTree::Text(text)) => Some(text),
        _ => None,
    }
}

/// The string under `field`, if `value` is an object that holds one there.
pub fn string_member(value: &serde_json::Value, field: &str) -> (text: Option<String>)
    ensures
        opt_text(text) == text_member(json_tree(*value), field@),
{
    match member(value, field) {
        Some(found) => match found.as_str() {
            Some(text) => Some(text.to_string()),
            None => None,
        },
        None => None,
    }
}

/// Whether bytes are the UTF-8 of a JSON value.
pub open spec fn json_bytes(bytes: Seq<u8>) -> bool {
    valid_utf8(bytes) && json_of(decode_utf8(bytes)) is Some
}

/// Whether bytes are the UTF-8 of a JSON value.
pub fn is_json(bytes: Vec<u8>) -> (yes: bool)
    ensures
        yes == json_bytes(bytes@),
{
    match checked_text(bytes) {
        Some(text) => match parse_json(text.as_str()) {
            Some(_) => true,
            None => false,
        },
        None => false,
    }
}

/// The JSON object without members.
pub fn empty_object() -> (value: serde_json::Value)
    ensures
        json_tree(value) == JsonTree::Object(Map::empty()),
{
    json_object(no_members())
}

} // verus!
