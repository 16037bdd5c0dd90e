//! The data handed to the template engine: a JSON object, filled field by
//! field.

use vstd::prelude::*;

verus! {

/// A JSON value, as contracts speak of it.
pub enum Json {
    Null,
    Flag(bool),
    /// A number, by its decimal text.
    Number(Seq<char>),
    Text(Seq<char>),
    List(Seq<Json>),
    Object(Map<Seq<char>, Json>),
}

/// The JSON list whose items are the strings `items`, in their order.
pub open spec fn text_list(items: Seq<Seq<char>>) -> Json {
    Json::List(items.map_values(|item: Seq<char>| Json::Text(item)))
}

/// `serde_json::Value`, carried through as it is.
#[verifier::external_type_specification]
#[verifier::external_body]
pub struct ExJsonValue(serde_json::Value);

/// `serde_json::Map`, the JSON object; contracts speak of its fields
/// through `json_entries`.
#[verifier::external_type_specification]
#[verifier::external_body]
#[verifier::reject_recursive_types(K)]
#[verifier::reject_recursive_types(V)]
pub struct ExJsonObject<K, V>(serde_json::Map<K, V>);

/// The fields that a JSON object holds, each key with its value.
pub uninterp spec fn json_entries(object: serde_json::Map<String, serde_json::Value>) -> Map<
    Seq<char>,
    Json,
>;

/// The content of an object without fields.
pub open spec fn no_fields() -> Map<Seq<char>, Json> {
    Map::empty()
}

/// `serde_json::Map::new`: an object without fields.
#[verifier::external_body]
pub(crate) fn object_new() -> (object: serde_json::Map<String, serde_json::Value>)
    ensures
        json_entries(object) == no_fields(),
{
    serde_json::Map::new()
}

/// `serde_json::Map::insert` of a string value: afterwards `key` holds
/// `value`, whatever it held before, and every other field is as it was.
#[verifier::external_body]
pub(crate) fn insert_text(
    object: &mut serde_json::Map<String, serde_json::Value>,
    key: &str,
    value: &str,
)
    ensures
        json_entries(*final(object)) == json_entries(*old(object)).insert(
            key@,
            Json::Text(value@),
        ),
{
    object.insert(key.to_string(), serde_json::Value::String(value.to_string()));
}

/// `serde_json::Map::insert` of a boolean value: afterwards `key` holds
/// `value`, whatever it held before, and every other field is as it was.
#[verifier::external_body]
pub(crate) fn insert_flag(
    object: &mut serde_json::Map<String, serde_json::Value>,
    key: &str,
    value: bool,
)
    ensures
        json_entries(*final(object)) == json_entries(*old(object)).insert(key@, Json::Flag(value)),
{
    object.insert(key.to_string(), serde_json::Value::Bool(value));
}

/// `serde_json::Map::insert` of a list of strings: afterwards `key` holds the
/// list of the strings of `items`, in their order, whatever it held before,
/// and every other field is as it was.
#[verifier::external_body]
pub(crate) fn insert_texts(
    object: &mut serde_json::Map<String, serde_json::Value>,
    key: &str,
    items: &Vec<String>,
)
    ensures
        json_entries(*final(object)) == json_entries(*old(object)).insert(
            key@,
            text_list(items.deep_view()),
        ),
{
    let list = items.iter().map(|item| serde_json::Value::String(item.clone())).collect();
    object.insert(key.to_string(), serde_json::Value::Array(list));
}

/// `serde_json::Map::contains_key`: whether the object has a field `key`.
#[verifier::external_body]
pub(crate) fn has_key(object: &serde_json::Map<String, serde_json::Value>, key: &str) -> (present:
    bool)
    ensures
        present == json_entries(*object).dom().contains(key@),
{
    object.contains_key(key)
}

} // verus!
