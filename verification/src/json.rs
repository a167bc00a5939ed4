//! JSON values, as the persistent store and the popup window exchange them
//! with the history. The values are `serde_json`'s; what one holds is told by
//! `json_of`, and the functions here are the only ones that touch one.

use vstd::prelude::*;

verus! {

/// What a JSON value holds.
pub enum JsonView {
    /// Null or a number: values that are never read here.
    Other,
    Bool(bool),
    Text(Seq<char>),
    Array(Seq<JsonView>),
    Object(Map<Seq<char>, JsonView>),
}

impl JsonView {
    /// The field `key` of an object; nothing for any other value, and nothing
    /// where the object has no such field.
    pub open spec fn field(self, key: Seq<char>) -> Option<JsonView> {
        match self {
            JsonView::Object(fields) => if fields.contains_key(key) {
                Some(fields[key])
            } else {
                None
            },
            _ => None,
        }
    }

    /// The text of a text value; nothing for any other value.
    pub open spec fn text(self) -> Option<Seq<char>> {
        match self {
            JsonView::Text(content) => Some(content),
            _ => None,
        }
    }

    /// The truth value of a boolean; nothing for any other value.
    pub open spec fn flag(self) -> Option<bool> {
        match self {
            JsonView::Bool(value) => Some(value),
            _ => None,
        }
    }

    /// The text held by the field `key` of an object, if it has that field
    /// and the field holds text.
    pub open spec fn text_field(self, key: Seq<char>) -> Option<Seq<char>> {
        match self.field(key) {
            Some(value) => value.text(),
            None => None,
        }
    }

    /// An object with the field `key` set to `value`, whatever it held there.
    pub open spec fn with_field(self, key: Seq<char>, value: JsonView) -> JsonView {
        match self {
            JsonView::Object(fields) => JsonView::Object(fields.insert(key, value)),
            _ => self,
        }
    }
}

/// `serde_json::Value`: a JSON value. It is read and built only through the
/// functions below.
#[verifier::external_type_specification]
#[verifier::external_body]
pub struct ExValue(serde_json::Value);

/// What a `serde_json::Value` holds.
pub uninterp spec fn json_of(value: serde_json::Value) -> JsonView;

/// What each of a run of values holds, in order.
pub open spec fn json_views(values: Seq<serde_json::Value>) -> Seq<JsonView> {
    values.map_values(|value: serde_json::Value| json_of(value))
}

/// `serde_json::Value::as_bool`: the truth value of a `Value::Bool`, and
/// nothing for any other value.
#[verifier::external_body]
pub(crate) fn as_bool(value: &serde_json::Value) -> (flag: Option<bool>)
    ensures
        flag == json_of(*value).flag(),
{
    value.as_bool()
}

/// `serde_json::Value::as_str`: the text of a `Value::String`, and nothing
/// for any other value.
#[verifier::external_body]
pub(crate) fn as_str(value: &serde_json::Value) -> (text: Option<&str>)
    ensures
        text.is_some() == json_of(*value).text().is_some(),
        text.is_some() ==> text.unwrap()@ == json_of(*value).text().unwrap(),
{
    value.as_str()
}

/// `serde_json::Value::as_array`: the items of a `Value::Array`, and nothing
/// for any other value.
#[verifier::external_body]
pub(crate) fn as_array(value: &serde_json::Value) -> (items: Option<&Vec<serde_json::Value>>)
    ensures
        items.is_some() == (json_of(*value) is Array),
        items.is_some() ==> json_of(*value) == JsonView::Array(json_views(items.unwrap()@)),
{
    value.as_array()
}

/// `serde_json::Value::get` with a text index: the value under `key` in a
/// `Value::Object` that has the key, and nothing for an object without it or
/// for any other value.
#[verifier::external_body]
pub(crate) fn get<'a>(value: &'a serde_json::Value, key: &str) -> (field: Option<
    &'a serde_json::Value,
>)
    ensures
        field.is_some() == json_of(*value).field(key@).is_some(),
        field.is_some() ==> json_of(*field.unwrap()) == json_of(*value).field(key@).unwrap(),
{
    value.get(key)
}

/// `serde_json::Value::Bool`: the value that holds a truth value.
#[verifier::external_body]
pub(crate) fn bool_value(flag: bool) -> (value: serde_json::Value)
    ensures
        json_of(value) == JsonView::Bool(flag),
{
    serde_json::Value::Bool(flag)
}

/// `serde_json::Value::String`: the value that holds a text.
#[verifier::external_body]
pub(crate) fn text_value(text: &str) -> (value: serde_json::Value)
    ensures
        json_of(value) == JsonView::Text(text@),
{
    serde_json::Value::String(text.to_string())
}

/// `serde_json::Value::Array`: the value that holds the given items in their
/// order.
#[verifier::external_body]
pub(crate) fn array_value(items: Vec<serde_json::Value>) -> (value: serde_json::Value)
    ensures
        json_of(value) == JsonView::Array(json_views(items@)),
{
    serde_json::Value::Array(items)
}

/// `serde_json::Value::Object` on `serde_json::Map::new`: the object without
/// fields.
#[verifier::external_body]
pub(crate) fn empty_object() -> (value: serde_json::Value)
    ensures
        json_of(value) == JsonView::Object(Map::empty()),
{
    serde_json::Value::Object(serde_json::Map::new())
}

/// `serde_json::Map::insert` on the map of a `Value::Object`: the field is
/// set to the value, whether or not the object had it, and no other field
/// changes.
#[verifier::external_body]
pub(crate) fn insert_field(object: &mut serde_json::Value, key: &str, value: serde_json::Value)
    requires
        json_of(*old(object)) is Object,
    ensures
        json_of(*final(object)) == json_of(*old(object)).with_field(key@, json_of(value)),
{
    if let serde_json::Value::Object(fields) = object {
        fields.insert(key.to_string(), value);
    }
}

/// The text under `key` in an object, if the object has the key and holds
/// text under it.
pub fn text_field<'a>(value: &'a serde_json::Value, key: &str) -> (text: Option<&'a str>)
    ensures
        text.is_some() == json_of(*value).text_field(key@).is_some(),
        text.is_some() ==> text.unwrap()@ == json_of(*value).text_field(key@).unwrap(),
{
    match get(value, key) {
        Some(field) => as_str(field),
        None => None,
    }
}

} // verus!
