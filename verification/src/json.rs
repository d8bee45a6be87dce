//! The JSON layer: `serde_json::Value` as an opaque value, a one-level model of
//! what such a value holds, and the calls into `serde_json` that the rest of
//! the library builds on. Nothing in this file is proved: every contract here
//! is a statement about `serde_json`.

use serde_json::Value;
use vstd::prelude::*;

verus! {

/// `serde_json::Value`, carried through as it is: nothing of its inside is
/// known but what the contracts below say.
#[verifier::external_type_specification]
#[verifier::external_body]
pub struct ExValue(serde_json::Value);

/// What one JSON value holds, one level deep, as far as this library reads it.
/// Booleans, numbers and arrays are never looked into and fall under `Other`.
pub enum Node {
    Null,
    Text(Seq<char>),
    Record(Map<Seq<char>, Value>),
    Other,
}

/// What `value` holds.
pub uninterp spec fn node_of(value: Value) -> Node;

/// What `serde_json::from_str` makes of `text` when asked for a `Value`:
/// `None` where it reports an error.
pub uninterp spec fn json_parse(text: Seq<char>) -> Option<Value>;

/// The compact text that `serde_json::to_string` writes for `value`.
pub uninterp spec fn json_text(value: Value) -> Seq<char>;

/// The members of an object; no members for any other value.
pub open spec fn members_of(value: Value) -> Map<Seq<char>, Value> {
    match node_of(value) {
        Node::Record(members) => members,
        _ => Map::empty(),
    }
}

/// `serde_json::from_str` at type `Value`, its error dropped. The contract
/// only names the result: the same text always parses to the same value, or
/// always fails.
#[verifier::external_body]
pub(crate) fn parse(text: &str) -> (r: Option<Value>)
    ensures
        r == json_parse(text@),
{
    serde_json::from_str::<Value>(text).ok()
}

/// `serde_json::to_string` on a `Value`. It cannot fail there: a `Value` has
/// string keys only and its `Serialize` impl raises no error of its own, so
/// the only errors left are those of the writer, which is a `Vec`. The
/// contract only names the text.
#[verifier::external_body]
pub(crate) fn render(value: &Value) -> (text: String)
    ensures
        text@ == json_text(*value),
{
    serde_json::to_string(value).unwrap_or_default()
}

/// `Value::is_null`: true exactly for the JSON `null`.
pub assume_specification[ serde_json::Value::is_null ](value: &Value) -> (r: bool)
    ensures
        r == (node_of(*value) is Null),
;

/// `Value::is_object`: true exactly for a JSON object.
pub assume_specification[ serde_json::Value::is_object ](value: &Value) -> (r: bool)
    ensures
        r == (node_of(*value) is Record),
;

/// `Value::as_str`: the string of a JSON string, `None` for any other value.
pub assume_specification<'a>[ serde_json::Value::as_str ](value: &'a Value) -> (r: Option<&'a str>)
    ensures
        match r {
            Some(s) => node_of(*value) == Node::Text(s@),
            None => !(node_of(*value) is Text),
        },
;

/// `Clone` for `Value`: the copy is the same JSON value.
pub assume_specification[ <serde_json::Value as Clone>::clone ](value: &Value) -> (r: Value)
    ensures
        r == *value,
;

/// `Value::get` with a string index: the member under `key` where `value` is
/// an object that has one, `None` otherwise.
#[verifier::external_body]
pub(crate) fn member<'a>(value: &'a Value, key: &str) -> (r: Option<&'a Value>)
    ensures
        match r {
            Some(found) => {
                &&& members_of(*value).contains_key(key@)
                &&& *found == members_of(*value)[key@]
            },
            None => !members_of(*value).contains_key(key@),
        },
{
    value.get(key)
}

/// The variant `Value::Null`.
#[verifier::external_body]
pub(crate) fn null_value() -> (r: Value)
    ensures
        node_of(r) is Null,
{
    Value::Null
}

/// The variant `Value::String`.
#[verifier::external_body]
pub(crate) fn text_value(text: String) -> (r: Value)
    ensures
        node_of(r) == Node::Text(text@),
{
    Value::String(text)
}

/// Assignment through `IndexMut` with a string index. On an object it sets the
/// member under `key`, adding it where it is missing; `null` is first turned
/// into an empty object. On any other value `serde_json` panics, so those are
/// left out.
#[verifier::external_body]
pub(crate) fn set_member(target: &mut Value, key: &str, value: Value)
    requires
        node_of(*old(target)) is Record || node_of(*old(target)) is Null,
    ensures
        node_of(*final(target)) == Node::Record(members_of(*old(target)).insert(key@, value)),
{
    target[key] = value;
}

} // verus!
