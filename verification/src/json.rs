//! The JSON documents the engine works on, as `serde_json` holds them, and
//! the mathematical model the contracts of this crate are stated over.
//!
//! Nothing in this file is proved: it is the boundary to `serde_json`. Every
//! item states what the named function of that crate does, in terms of
//! [`Json`], and the rest of the crate is verified against these statements.

use vstd::prelude::*;

verus! {

#[verifier::external_type_specification]
#[verifier::external_body]
pub struct ExValue(serde_json::Value);

#[verifier::external_type_specification]
#[verifier::external_body]
pub struct ExNumber(serde_json::Number);

#[verifier::external_type_specification]
#[verifier::external_body]
#[verifier::reject_recursive_types(K)]
#[verifier::reject_recursive_types(V)]
pub struct ExMap<K, V>(serde_json::Map<K, V>);

#[verifier::external_type_specification]
#[verifier::external_body]
pub struct ExError(serde_json::Error);

/// A JSON value as a mathematical tree. Objects are maps from keys to values:
/// a key occurs at most once and the order of the entries carries no meaning,
/// as in `serde_json` built without `preserve_order`, where an object is a
/// `BTreeMap` and is written with its keys in order.
pub enum Json {
    Null,
    Bool(bool),
    Number(serde_json::Number),
    Text(Seq<char>),
    List(Seq<Json>),
    Object(Map<Seq<char>, Json>),
}

/// The tree that a `serde_json::Value` holds.
pub uninterp spec fn json_of(value: serde_json::Value) -> Json;

/// The entries that a `serde_json::Map` holds, by key.
pub uninterp spec fn fields_of(map: serde_json::Map<String, serde_json::Value>) -> Map<
    Seq<char>,
    Json,
>;

/// What `serde_json::from_str` makes of a text: the tree it reads, or `None`
/// where it rejects the text.
pub uninterp spec fn parsed(text: Seq<char>) -> Option<Json>;

/// What `serde_json::to_string` writes for a tree, or `None` where it fails.
pub uninterp spec fn rendered(doc: Json) -> Option<Seq<char>>;

/// `serde_json::from_str` at `Value`. The outcome depends on the text alone;
/// which texts are accepted, and as what, is left to [`parsed`].
#[verifier::external_body]
pub(crate) fn parse_value(text: &str) -> (r: Result<serde_json::Value, serde_json::Error>)
    ensures
        match r {
            Ok(value) => parsed(text@) == Some(json_of(value)),
            Err(_) => parsed(text@) is None,
        },
{
    serde_json::from_str::<serde_json::Value>(text)
}

/// `serde_json::to_string` at `Value`. The outcome depends on the tree alone;
/// the text itself is left to [`rendered`].
#[verifier::external_body]
pub(crate) fn render_value(value: &serde_json::Value) -> (r: Result<String, serde_json::Error>)
    ensures
        match r {
            Ok(text) => rendered(json_of(*value)) == Some(text@),
            Err(_) => rendered(json_of(*value)) is None,
        },
{
    serde_json::to_string(value)
}

/// `serde_json::Value::as_array`: the elements of an array, `None` for any
/// other value.
pub assume_specification[ serde_json::Value::as_array ](value: &serde_json::Value) -> (items:
    Option<&Vec<serde_json::Value>>)
    ensures
        match items {
            Some(v) => json_of(*value) == Json::List(Seq::new(v@.len(), |i: int| json_of(v@[i]))),
            None => !(json_of(*value) is List),
        },
;

/// `serde_json::Value::as_str`: the content of a string, `None` for any
/// other value.
pub assume_specification[ serde_json::Value::as_str ](value: &serde_json::Value) -> (text: Option<
    &str,
>)
    ensures
        match text {
            Some(s) => json_of(*value) == Json::Text(s@),
            None => !(json_of(*value) is Text),
        },
;

/// `serde_json::Value::as_object`: the entries of an object, `None` for any
/// other value.
pub assume_specification[ serde_json::Value::as_object ](value: &serde_json::Value) -> (entries:
    Option<&serde_json::Map<String, serde_json::Value>>)
    ensures
        match entries {
            Some(m) => json_of(*value) == Json::Object(fields_of(*m)),
            None => !(json_of(*value) is Object),
        },
;

/// `serde_json::Value::as_object_mut`: the entries of an object, open to
/// change; `None` for any other value, which then stays as it is.
pub assume_specification[ serde_json::Value::as_object_mut ](
    value: &mut serde_json::Value,
) -> (entries: Option<&mut serde_json::Map<String, serde_json::Value>>)
    ensures
        match entries {
            Some(m) => json_of(*old(value)) == Json::Object(fields_of(*m))
                && json_of(*final(value)) == Json::Object(fields_of(*final(m))),
            None => !(json_of(*old(value)) is Object) && *final(value) == *old(value),
        },
;

/// `Clone` of `serde_json::Value`: the copy holds the same tree.
pub assume_specification[ <serde_json::Value as Clone>::clone ](
    value: &serde_json::Value,
) -> (copy: serde_json::Value)
    ensures
        json_of(copy) == json_of(*value),
;

/// `serde_json::Map::get` with a string key: the value stored under the key,
/// `None` where the map has no such key.
#[verifier::external_body]
pub(crate) fn field<'a>(map: &'a serde_json::Map<String, serde_json::Value>, key: &str) -> (r:
    Option<&'a serde_json::Value>)
    ensures
        match r {
            Some(value) => fields_of(*map).contains_key(key@) && fields_of(*map)[key@] == json_of(
                *value,
            ),
            None => !fields_of(*map).contains_key(key@),
        },
{
    map.get(key)
}

/// `serde_json::Map::get_mut` with a string key: the value stored under the
/// key, open to change while every other entry stays; `None` where the map
/// has no such key, and the map then stays as it is.
#[verifier::external_body]
pub(crate) fn field_mut<'a>(
    map: &'a mut serde_json::Map<String, serde_json::Value>,
    key: &str,
) -> (r: Option<&'a mut serde_json::Value>)
    ensures
        match r {
            Some(value) => fields_of(*old(map)).contains_key(key@) && fields_of(*old(map))[key@]
                == json_of(*value) && fields_of(*final(map)) == fields_of(*old(map)).insert(
                key@,
                json_of(*final(value)),
            ),
            None => !fields_of(*old(map)).contains_key(key@) && *final(map) == *old(map),
        },
{
    map.get_mut(key)
}

/// `serde_json::Map::remove` with a string key: the key leaves the map, every
/// other entry stays, and the value that was stored under it is returned.
#[verifier::external_body]
pub(crate) fn remove_field(
    map: &mut serde_json::Map<String, serde_json::Value>,
    key: &str,
) -> (r: Option<serde_json::Value>)
    ensures
        fields_of(*final(map)) == fields_of(*old(map)).remove(key@),
        match r {
            Some(value) => fields_of(*old(map)).contains_key(key@) && fields_of(*old(map))[key@]
                == json_of(value),
            None => !fields_of(*old(map)).contains_key(key@),
        },
{
    map.remove(key)
}

/// `serde_json::Map::insert`: the key holds the new value afterwards, every
/// other entry stays, and the value that was stored under it is returned.
#[verifier::external_body]
pub(crate) fn insert_field(
    map: &mut serde_json::Map<String, serde_json::Value>,
    key: String,
    value: serde_json::Value,
) -> (r: Option<serde_json::Value>)
    ensures
        fields_of(*final(map)) == fields_of(*old(map)).insert(key@, json_of(value)),
        match r {
            Some(previous) => fields_of(*old(map)).contains_key(key@) && fields_of(*old(map))[key@]
                == json_of(previous),
            None => !fields_of(*old(map)).contains_key(key@),
        },
{
    map.insert(key, value)
}

/// `From<bool>` of `serde_json::Value`: the JSON boolean.
#[verifier::external_body]
pub(crate) fn flag_value(flag: bool) -> (r: serde_json::Value)
    ensures
        json_of(r) == Json::Bool(flag),
{
    serde_json::Value::from(flag)
}

/// `From<String>` of `serde_json::Value`: the JSON string with that content.
#[verifier::external_body]
pub(crate) fn text_value(text: String) -> (r: serde_json::Value)
    ensures
        json_of(r) == Json::Text(text@),
{
    serde_json::Value::from(text)
}

} // verus!
