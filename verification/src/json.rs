//! The boundary to `serde_json`. Everything here is trusted: Verus believes
//! these contracts and does not look at the code behind them. Each contract
//! speaks of a JSON value through `json_tree`, the content that the value
//! holds.

use vstd::prelude::*;

verus! {

/// What a JSON value holds. Numbers are told apart from the rest and not from
/// each other: nothing in this crate reads one.
pub enum JsonTree {
    Null,
    Bool(bool),
    Number,
    Text(Seq<char>),
    List(Seq<JsonTree>),
    Object(Map<Seq<char>, JsonTree>),
}

/// The member that an object holds under `key`; `None` where the tree is no
/// object or holds no such member.
pub open spec fn tree_member(tree: JsonTree, key: Seq<char>) -> Option<JsonTree> {
    match tree {
        JsonTree::Object(members) => if members.contains_key(key) {
            Some(members[key])
        } else {
            None
        },
        _ => None,
    }
}

/// The members of an object; none for any other tree.
pub open spec fn tree_members(tree: JsonTree) -> Map<Seq<char>, JsonTree> {
    match tree {
        JsonTree::Object(members) => members,
        _ => Map::empty(),
    }
}

/// A list whose items are all texts.
pub open spec fn is_text_list(tree: JsonTree) -> bool {
    tree matches JsonTree::List(items) && forall|i: int|
        0 <= i < items.len() ==> #[trigger] items[i] is Text
}

/// An object, each of whose members is null, a text or a list of texts.
pub open spec fn is_flat_record(tree: JsonTree) -> bool {
    tree matches JsonTree::Object(members) && forall|key: Seq<char>|
        members.contains_key(key) ==> {
            let member = #[trigger] members[key];
            member is Null || member is Text || is_text_list(member)
        }
}

#[verifier::external_type_specification]
#[verifier::external_body]
pub struct ExJsonValue(serde_json::Value);

#[verifier::external_type_specification]
#[verifier::external_body]
pub struct ExJsonError(serde_json::Error);

/// The content of a `serde_json::Value`.
pub uninterp spec fn json_tree(value: serde_json::Value) -> JsonTree;

/// What `serde_json::from_str` reads from a text: the content of the value it
/// returns, or `None` where it returns an error.
pub uninterp spec fn json_parsed(text: Seq<char>) -> Option<JsonTree>;

/// The compact text that `serde_json::to_string` writes for a flat record.
pub uninterp spec fn json_written(tree: JsonTree) -> Seq<char>;

/// `serde_json::from_str` at the type `serde_json::Value`. The result is a
/// function of the text: the value that `json_parsed` names, or an error where
/// it names none.
#[verifier::external_body]
pub(crate) fn parse_json(text: &str) -> (parsed: Result<serde_json::Value, serde_json::Error>)
    ensures
        match parsed {
            Ok(value) => json_parsed(text@) == Some(json_tree(value)),
            Err(_) => json_parsed(text@) is None,
        },
{
    serde_json::from_str::<serde_json::Value>(text)
}

/// `serde_json::to_string` on a value. For a flat record the call cannot
/// fail: every key is a string and the writer is a byte vector. The text is
/// a function of the content, object members being written in the order of
/// their keys, and `serde_json::from_str` reads the same content back from it.
#[verifier::external_body]
pub(crate) fn write_json(value: &serde_json::Value) -> (text: String)
    requires
        is_flat_record(json_tree(*value)),
    ensures
        text@ == json_written(json_tree(*value)),
        json_parsed(text@) == Some(json_tree(*value)),
{
    serde_json::to_string(value).unwrap()
}

/// `serde_json::Value::get` with a string key: the member of an object under
/// that key, `None` for a missing key and for a value that is no object.
#[verifier::external_body]
pub(crate) fn member<'a>(value: &'a serde_json::Value, key: &str) -> (found: Option<
    &'a serde_json::Value,
>)
    ensures
        match found {
            Some(item) => tree_member(json_tree(*value), key@) == Some(json_tree(*item)),
            None => tree_member(json_tree(*value), key@) is None,
        },
{
    value.get(key)
}

/// `serde_json::Value::as_str`: the string of a string value, `None` for any
/// other value.
pub assume_specification<'a>[ serde_json::Value::as_str ](value: &'a serde_json::Value) -> (text:
    Option<&'a str>)
    ensures
        match text {
            Some(s) => json_tree(*value) == JsonTree::Text(s@),
            None => !(json_tree(*value) is Text),
        },
;

/// `serde_json::Value::as_array`: the items of an array value in their order,
/// `None` for any other value.
pub assume_specification<'a>[ serde_json::Value::as_array ](value: &'a serde_json::Value) -> (items:
    Option<&'a Vec<serde_json::Value>>)
    ensures
        match items {
            Some(list) => json_tree(*value) == JsonTree::List(
                list@.map_values(|item: serde_json::Value| json_tree(item)),
            ),
            None => !(json_tree(*value) is List),
        },
;

/// `serde_json::Value::is_null`.
pub assume_specification[ serde_json::Value::is_null ](value: &serde_json::Value) -> (null: bool)
    ensures
        null == (json_tree(*value) is Null),
;

/// The value `serde_json::Value::Null`.
#[verifier::external_body]
pub(crate) fn null_value() -> (value: serde_json::Value)
    ensures
        json_tree(value) == JsonTree::Null,
{
    serde_json::Value::Null
}

/// `serde_json::Value::from` on a `String`: the string value that holds it.
#[verifier::external_body]
pub(crate) fn text_value(text: String) -> (value: serde_json::Value)
    ensures
        json_tree(value) == JsonTree::Text(text@),
{
    serde_json::Value::from(text)
}

/// `serde_json::Value::from` on a `Vec<String>`: the array of the string
/// values, in the same order.
#[verifier::external_body]
pub(crate) fn text_list_value(texts: Vec<String>) -> (value: serde_json::Value)
    ensures
        json_tree(value) == JsonTree::List(texts@.map_values(|s: String| JsonTree::Text(s@))),
{
    serde_json::Value::from(texts)
}

/// Assignment through `serde_json::Value`'s `IndexMut` with a string key. On
/// an object it sets the member under the key, new or not; null is taken for
/// an object without members. On any other value the call panics.
#[verifier::external_body]
pub(crate) fn set_member(object: &mut serde_json::Value, key: &str, item: serde_json::Value)
    requires
        json_tree(*old(object)) is Object || json_tree(*old(object)) is Null,
    ensures
        json_tree(*final(object)) == JsonTree::Object(
            tree_members(json_tree(*old(object))).insert(key@, json_tree(item)),
        ),
{
    object[key] = item;
}

} // verus!
