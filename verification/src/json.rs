//! JSON documents, held as `serde_json` values and read through a
//! mathematical tree.

use vstd::prelude::*;

verus! {

/// `serde_json::Value`, carried as an opaque value.
#[verifier::external_type_specification]
#[verifier::external_body]
pub struct ExValue(serde_json::Value);

/// The tree that a JSON value stands for. A number is kept as the decimal
/// text that `serde_json` prints for it; the members of an object are keyed
/// by name.
pub enum JsonValue {
    Null,
    Bool(bool),
    Number(Seq<char>),
    Text(Seq<char>),
    Array(Seq<JsonValue>),
    Object(Map<Seq<char>, JsonValue>),
}

/// The tree that a `serde_json::Value` holds.
pub uninterp spec fn value_tree(v: serde_json::Value) -> JsonValue;

/// What `serde_json::from_str` reads from `text` as one JSON document:
/// the tree of the value, or `None` where it reports an error.
pub uninterp spec fn json_document(text: Seq<char>) -> Option<JsonValue>;

/// What `serde_json::to_string_pretty` writes for a value with this tree.
pub uninterp spec fn json_pretty(tree: JsonValue) -> Seq<char>;

/// The member `key` of an object; `None` for a missing key and for
/// anything that is no object.
pub open spec fn member_of(tree: JsonValue, key: Seq<char>) -> Option<JsonValue> {
    match tree {
        JsonValue::Object(members) => if members.contains_key(key) {
            Some(members[key])
        } else {
            None
        },
        _ => None,
    }
}

/// The first item of an array; `None` for an empty array and for anything
/// that is no array.
pub open spec fn first_item(tree: JsonValue) -> Option<JsonValue> {
    match tree {
        JsonValue::Array(items) => if items.len() > 0 {
            Some(items[0])
        } else {
            None
        },
        _ => None,
    }
}

/// The text of the member `key` of an object, where that member is a
/// string.
pub open spec fn text_member_of(tree: JsonValue, key: Seq<char>) -> Option<Seq<char>> {
    match member_of(tree, key) {
        Some(JsonValue::Text(t)) => Some(t),
        _ => None,
    }
}

/// The object without members, `{}`.
pub open spec fn empty_object_tree() -> JsonValue {
    JsonValue::Object(Map::empty())
}

/// The message of the error that `serde_json::from_str` reports for a text
/// that is no JSON document.
pub uninterp spec fn json_error_text(text: Seq<char>) -> Seq<char>;

/// Calls `serde_json::from_str` for a `Value`. The result is `Ok` exactly
/// where the text is a JSON document, and then holds that document's tree;
/// else it holds the message of the error that was reported.
#[verifier::external_body]
fn value_from_str(text: &str) -> (r: Result<serde_json::Value, String>)
    ensures
        r is Ok <==> json_document(text@) is Some,
        r matches Ok(v) ==> json_document(text@) == Some(value_tree(v)),
        r matches Err(message) ==> message@ == json_error_text(text@),
{
    serde_json::from_str::<serde_json::Value>(text).map_err(|e| e.to_string())
}

/// Calls `serde_json::to_string_pretty` on a `Value`, which cannot fail for
/// one: the text depends on the tree alone.
#[verifier::external_body]
fn value_to_pretty(v: &serde_json::Value) -> (r: String)
    ensures
        r@ == json_pretty(value_tree(*v)),
{
    serde_json::to_string_pretty(v).unwrap_or_default()
}

/// Calls `serde_json::Value::get` with a string key: the member of that name
/// where the value is an object that has one, else `None`.
#[verifier::external_body]
fn value_member(v: &serde_json::Value, key: &str) -> (r: Option<serde_json::Value>)
    ensures
        r is Some <==> member_of(value_tree(*v), key@) is Some,
        r matches Some(m) ==> member_of(value_tree(*v), key@) == Some(value_tree(m)),
{
    v.get(key).cloned()
}

/// Calls `serde_json::Value::as_str`: the text of a string value, `None`
/// for every other kind.
#[verifier::external_body]
fn value_text(v: &serde_json::Value) -> (r: Option<String>)
    ensures
        r is Some <==> value_tree(*v) is Text,
        r matches Some(t) ==> value_tree(*v) == JsonValue::Text(t@),
{
    v.as_str().map(|t| t.to_string())
}

/// Calls `serde_json::Value::as_array`: the items of an array in order,
/// `None` for every other kind.
#[verifier::external_body]
fn value_items(v: &serde_json::Value) -> (r: Option<Vec<JsonDoc>>)
    ensures
        r is Some <==> value_tree(*v) is Array,
        r matches Some(items) ==> value_tree(*v) == JsonValue::Array(
            Seq::new(items@.len(), |i: int| items@[i]@),
        ),
{
    v.as_array().map(|items| items.iter().map(|item| JsonDoc { value: item.clone() }).collect())
}

/// Builds `serde_json::Value::Object` over `serde_json::Map::new()`, the
/// object without members.
#[verifier::external_body]
fn value_empty_object() -> (r: serde_json::Value)
    ensures
        value_tree(r) == empty_object_tree(),
{
    serde_json::Value::Object(serde_json::Map::new())
}

/// Calls `Clone::clone` of `serde_json::Value`: the copy holds the same tree.
#[verifier::external_body]
fn value_clone(v: &serde_json::Value) -> (r: serde_json::Value)
    ensures
        value_tree(r) == value_tree(*v),
{
    v.clone()
}

/// One JSON value.
pub struct JsonDoc {
    pub value: serde_json::Value,
}

impl View for JsonDoc {
    type V = JsonValue;

    open spec fn view(&self) -> JsonValue {
        value_tree(self.value)
    }
}

impl JsonDoc {
    /// Reads `text` as one JSON document.
    pub fn parse(text: &str) -> (r: Option<JsonDoc>)
        ensures
            r is Some <==> json_document(text@) is Some,
            r matches Some(doc) ==> json_document(text@) == Some(doc@),
    {
        match value_from_str(text) {
            Ok(value) => Some(JsonDoc { value }),
            Err(_) => None,
        }
    }

    /// Reads `text` as one JSON document, or says why it is none.
    pub fn parse_or_message(text: &str) -> (r: Result<JsonDoc, String>)
        ensures
            r is Ok <==> json_document(text@) is Some,
            r matches Ok(doc) ==> json_document(text@) == Some(doc@),
            r matches Err(message) ==> message@ == json_error_text(text@),
    {
        match value_from_str(text) {
            Ok(value) => Ok(JsonDoc { value }),
            Err(message) => Err(message),
        }
    }

    /// The object without members, `{}`.
    pub fn empty_object() -> (r: JsonDoc)
        ensures
            r@ == empty_object_tree(),
    {
        JsonDoc { value: value_empty_object() }
    }

    /// The member `key`, where this is an object that has it.
    pub fn get(&self, key: &str) -> (r: Option<JsonDoc>)
        ensures
            r is Some <==> member_of(self@, key@) is Some,
            r matches Some(m) ==> member_of(self@, key@) == Some(m@),
    {
        match value_member(&self.value, key) {
            Some(value) => Some(JsonDoc { value }),
            None => None,
        }
    }

    /// The text, where this is a string.
    pub fn as_text(&self) -> (r: Option<String>)
        ensures
            r is Some <==> self@ is Text,
            r matches Some(t) ==> self@ == JsonValue::Text(t@),
    {
        value_text(&self.value)
    }

    /// The items in order, where this is an array.
    pub fn items(&self) -> (r: Option<Vec<JsonDoc>>)
        ensures
            r is Some <==> self@ is Array,
            r matches Some(docs) ==> self@ == JsonValue::Array(
                Seq::new(docs@.len(), |i: int| docs@[i]@),
            ),
    {
        value_items(&self.value)
    }

    /// The first item, where this is an array that is not empty.
    pub fn first(&self) -> (r: Option<JsonDoc>)
        ensures
            r is Some <==> first_item(self@) is Some,
            r matches Some(item) ==> first_item(self@) == Some(item@),
    {
        match self.items() {
            Some(items) => {
                let mut items = items;
                if items.len() > 0 {
                    Some(items.swap_remove(0))
                } else {
                    None
                }
            },
            None => None,
        }
    }

    /// Whether this is the string `expected`.
    pub fn is_text(&self, expected: &str) -> (r: bool)
        ensures
            r == (self@ == JsonValue::Text(expected@)),
    {
        match self.as_text() {
            Some(t) => crate::strings::text_eq(t.as_str(), expected),
            None => false,
        }
    }

    /// The text of the member `key`, where this is an object whose member
    /// of that name is a string.
    pub fn text_member(&self, key: &str) -> (r: Option<String>)
        ensures
            r is Some <==> text_member_of(self@, key@) is Some,
            r matches Some(t) ==> text_member_of(self@, key@) == Some(t@),
    {
        match self.get(key) {
            Some(m) => m.as_text(),
            None => None,
        }
    }

    /// The pretty-printed text of this value.
    pub fn pretty(&self) -> (r: String)
        ensures
            r@ == json_pretty(self@),
    {
        value_to_pretty(&self.value)
    }
}

impl Clone for JsonDoc {
    fn clone(&self) -> (r: JsonDoc)
        ensures
            r@ == self@,
    {
        JsonDoc { value: value_clone(&self.value) }
    }
}

} // verus!
