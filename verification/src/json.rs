//! The JSON value library, as far as the protocol engine relies on it.
//!
//! Nothing in this file is proved. Each item states what the `serde_json`
//! crate does; the rest of the library is verified against these statements.

use vstd::prelude::*;

verus! {

/// A `serde_json::Value`, carried through as an opaque value.
#[verifier::external_type_specification]
#[verifier::external_body]
pub struct ExJsonValue(serde_json::Value);

/// A `serde_json::Error`, carried through as an opaque value.
#[verifier::external_type_specification]
#[verifier::external_body]
pub struct ExJsonError(serde_json::Error);

/// A `serde_json::Map`, the members of a JSON object.
#[verifier::external_type_specification]
#[verifier::external_body]
#[verifier::reject_recursive_types(K)]
#[verifier::reject_recursive_types(V)]
pub struct ExJsonObject<K, V>(serde_json::Map<K, V>);

/// The members that a JSON object holds, by key.
pub uninterp spec fn object_fields(object: serde_json::Map<String, serde_json::Value>) -> Map<
    Seq<char>,
    serde_json::Value,
>;

/// The JSON string value with the given characters.
pub uninterp spec fn text_value(text: Seq<char>) -> serde_json::Value;

/// The characters of a JSON value that is a string; `None` for any other value.
pub uninterp spec fn value_text(value: serde_json::Value) -> Option<Seq<char>>;

/// The elements of a JSON value that is an array; `None` for any other value.
pub uninterp spec fn value_items(value: serde_json::Value) -> Option<Seq<serde_json::Value>>;

/// The compact JSON text of the object with the given members.
pub uninterp spec fn rendered(fields: Map<Seq<char>, serde_json::Value>) -> Seq<char>;

/// The members of the JSON object that `serde_json` reads from a text;
/// `None` where it refuses the text.
pub uninterp spec fn parsed_object(text: Seq<char>) -> Option<Map<Seq<char>, serde_json::Value>>;

/// `serde_json::Map::new`: an object without members.
#[verifier::external_body]
pub(crate) fn new_object() -> (object: serde_json::Map<String, serde_json::Value>)
    ensures
        object_fields(object) =~= Map::empty(),
{
    serde_json::Map::new()
}

/// `serde_json::Map::insert` with a `Value::String`: the member `key` is set
/// to the JSON string `text`, replacing an earlier member of that key; the
/// other members stay.
#[verifier::external_body]
pub(crate) fn insert_text(
    object: &mut serde_json::Map<String, serde_json::Value>,
    key: &str,
    text: &str,
)
    ensures
        object_fields(*final(object)) == object_fields(*old(object)).insert(
            key@,
            text_value(text@),
        ),
{
    object.insert(key.to_string(), serde_json::Value::String(text.to_string()));
}

/// `Display` of `serde_json::Value` on an object: its compact JSON text,
/// which depends on the members alone.
#[verifier::external_body]
pub(crate) fn object_to_text(object: serde_json::Map<String, serde_json::Value>) -> (text: String)
    ensures
        text@ == rendered(object_fields(object)),
{
    serde_json::Value::Object(object).to_string()
}

/// `serde_json::from_str` at the type `serde_json::Map<String, Value>`: what
/// it yields depends on the text alone; on success it yields the members of
/// the object that the text denotes.
#[verifier::external_body]
pub(crate) fn parse_object(text: &str) -> (parsed: Result<
    serde_json::Map<String, serde_json::Value>,
    serde_json::Error,
>)
    ensures
        match parsed {
            Ok(object) => parsed_object(text@) == Some(object_fields(object)),
            Err(_) => parsed_object(text@).is_none(),
        },
{
    serde_json::from_str(text)
}

/// `serde_json::Map::get`: the member of that key, if the object has one.
#[verifier::external_body]
pub(crate) fn object_get<'a>(
    object: &'a serde_json::Map<String, serde_json::Value>,
    key: &str,
) -> (member: Option<&'a serde_json::Value>)
    ensures
        match member {
            Some(value) => object_fields(*object).contains_key(key@) && *value == object_fields(
                *object,
            )[key@],
            None => !object_fields(*object).contains_key(key@),
        },
{
    object.get(key)
}

/// `serde_json::Value::as_str`: the string's characters, for a JSON string
/// only.
#[verifier::external_body]
pub(crate) fn value_as_text<'a>(value: &'a serde_json::Value) -> (text: Option<&'a str>)
    ensures
        match text {
            Some(s) => value_text(*value) == Some(s@),
            None => value_text(*value).is_none(),
        },
{
    value.as_str()
}

/// `serde_json::Value::as_array`: the elements, for a JSON array only.
#[verifier::external_body]
pub(crate) fn value_as_list<'a>(value: &'a serde_json::Value) -> (items: Option<
    &'a Vec<serde_json::Value>,
>)
    ensures
        match items {
            Some(list) => value_items(*value) == Some(list@),
            None => value_items(*value).is_none(),
        },
{
    value.as_array()
}

} // verus!
