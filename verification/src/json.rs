//! The boundary to `serde_json`: a mathematical model of JSON documents, the
//! outside types that carry them at run time, and one thin wrapper for each
//! `serde_json` function the library calls. Nothing stated here is proved; every
//! contract in this file is an assumption about `serde_json`.
//!
//! The model of an object is a map without order. That the serialized text is
//! determined by the model holds for `serde_json` as it is built by default,
//! where an object keeps its members sorted by key; it does not hold with the
//! feature `preserve_order`.

use vstd::prelude::*;

verus! {

/// A JSON document as a mathematical value.
///
/// `Integer` stands for a number held as an integer, `Float` for a number held
/// in floating point, identified by the IEEE-754 bit pattern of its 64 bits.
pub enum Json {
    Null,
    Bool(bool),
    Integer(int),
    Float(u64),
    Text(Seq<char>),
    Array(Seq<Json>),
    Object(Map<Seq<char>, Json>),
}

/// `serde_json::Value`: any JSON value. It is opaque here; what it holds is
/// spoken of through `json_view`.
#[verifier::external_type_specification]
#[verifier::external_body]
pub struct ExJsonValue(serde_json::Value);

/// `serde_json::Map`: the members of a JSON object. It is opaque here; what it
/// holds is spoken of through `json_entries`.
#[verifier::external_type_specification]
#[verifier::external_body]
#[verifier::reject_recursive_types(K)]
#[verifier::reject_recursive_types(V)]
pub struct ExJsonMap<K, V>(serde_json::Map<K, V>);

/// `serde_json::Error`: why a serialization failed. Nothing is read of it.
#[verifier::external_type_specification]
#[verifier::external_body]
pub struct ExJsonError(serde_json::Error);

/// The document that a `serde_json::Value` holds: `Null`, `Bool` and `String`
/// by their content, a `Number` as `Integer` or `Float` by how it is held, an
/// `Array` by the documents of its elements in order, and an `Object` by the
/// documents of its members.
pub uninterp spec fn json_view(value: serde_json::Value) -> Json;

/// The members that a `serde_json::Map` holds: the document of each member,
/// by key.
pub uninterp spec fn json_entries(map: serde_json::Map<String, serde_json::Value>) -> Map<Seq<char>, Json>;

/// The text `serde_json::to_string` produces for a document, `None` where it
/// reports an error.
pub uninterp spec fn json_compact(document: Json) -> Option<Seq<char>>;

/// The text `serde_json::to_string_pretty` produces for a document, `None`
/// where it reports an error.
pub uninterp spec fn json_pretty(document: Json) -> Option<Seq<char>>;

/// `serde_json::Value::Null`.
#[verifier::external_body]
pub(crate) fn json_null() -> (value: serde_json::Value)
    ensures
        json_view(value) == Json::Null,
{
    serde_json::Value::Null
}

/// `serde_json::Value::Bool`: a JSON boolean with the given truth value.
#[verifier::external_body]
pub(crate) fn json_bool(b: bool) -> (value: serde_json::Value)
    ensures
        json_view(value) == Json::Bool(b),
{
    serde_json::Value::Bool(b)
}

/// `<serde_json::Value as From<i64>>::from`: the JSON number equal to `n`.
#[verifier::external_body]
pub(crate) fn json_i64(n: i64) -> (value: serde_json::Value)
    ensures
        json_view(value) == Json::Integer(n as int),
{
    serde_json::Value::from(n)
}

/// `<serde_json::Value as From<u64>>::from`: the JSON number equal to `n`.
#[verifier::external_body]
pub(crate) fn json_u64(n: u64) -> (value: serde_json::Value)
    ensures
        json_view(value) == Json::Integer(n as int),
{
    serde_json::Value::from(n)
}

/// `serde_json::Value::String`: the JSON string with the characters of `s`.
#[verifier::external_body]
pub(crate) fn json_string(s: String) -> (value: serde_json::Value)
    ensures
        json_view(value) == Json::Text(s@),
{
    serde_json::Value::String(s)
}

/// `<serde_json::Value as Clone>::clone`: a value that holds the same document.
#[verifier::external_body]
pub(crate) fn json_clone(value: &serde_json::Value) -> (copy: serde_json::Value)
    ensures
        json_view(copy) == json_view(*value),
{
    value.clone()
}

/// `serde_json::Value::Object`: the JSON object with the members of `map`.
#[verifier::external_body]
pub(crate) fn json_object(map: serde_json::Map<String, serde_json::Value>) -> (value: serde_json::Value)
    ensures
        json_view(value) == Json::Object(json_entries(map)),
{
    serde_json::Value::Object(map)
}

/// `serde_json::Map::new`: a map without members.
#[verifier::external_body]
pub(crate) fn json_map_new() -> (members: serde_json::Map<String, serde_json::Value>)
    ensures
        json_entries(members) =~= Map::empty(),
{
    serde_json::Map::new()
}

/// `serde_json::Map::contains_key`: whether the map has a member under `key`.
#[verifier::external_body]
pub(crate) fn json_map_contains_key(map: &serde_json::Map<String, serde_json::Value>, key: &str) -> (found: bool)
    ensures
        found == json_entries(*map).dom().contains(key@),
{
    map.contains_key(key)
}

/// `serde_json::Map::insert`: afterwards `key` maps to `value`, whether or not
/// it had a member before; all other members stay. The previous member, which
/// `insert` returns, is dropped.
#[verifier::external_body]
pub(crate) fn json_map_insert(map: &mut serde_json::Map<String, serde_json::Value>, key: String, value: serde_json::Value)
    ensures
        json_entries(*final(map)) == json_entries(*old(map)).insert(key@, json_view(value)),
{
    map.insert(key, value);
}

/// `serde_json::Map::remove`: afterwards `key` has no member and all other
/// members stay; the removed member is returned, `None` if there was none.
#[verifier::external_body]
pub(crate) fn json_map_remove(map: &mut serde_json::Map<String, serde_json::Value>, key: &str) -> (removed: Option<serde_json::Value>)
    ensures
        json_entries(*final(map)) == json_entries(*old(map)).remove(key@),
        match removed {
            Some(value) => json_entries(*old(map)).dom().contains(key@)
                && json_view(value) == json_entries(*old(map))[key@],
            None => !json_entries(*old(map)).dom().contains(key@),
        },
{
    map.remove(key)
}

/// Tells `serde_json::Value::Object` from the other variants and hands its map
/// out.
#[verifier::external_body]
pub(crate) fn json_into_object(value: serde_json::Value) -> (object: Option<serde_json::Map<String, serde_json::Value>>)
    ensures
        match object {
            Some(map) => json_view(value) == Json::Object(json_entries(map)),
            None => !(json_view(value) is Object),
        },
{
    match value {
        serde_json::Value::Object(map) => Some(map),
        _ => None,
    }
}

/// `serde_json::Value::as_str`: the characters of a JSON string, `None` for
/// every other kind of value.
#[verifier::external_body]
pub(crate) fn json_as_string(value: &serde_json::Value) -> (text: Option<String>)
    ensures
        match text {
            Some(s) => json_view(*value) == Json::Text(s@),
            None => !(json_view(*value) is Text),
        },
{
    match value.as_str() {
        Some(text) => Some(text.to_owned()),
        None => None,
    }
}

/// `serde_json::to_string` on a `serde_json::Value`: compact, single-line JSON.
#[verifier::external_body]
pub(crate) fn json_to_string(value: &serde_json::Value) -> (text: Result<String, serde_json::Error>)
    ensures
        match text {
            Ok(s) => json_compact(json_view(*value)) == Some(s@),
            Err(_) => json_compact(json_view(*value)) is None,
        },
{
    serde_json::to_string(value)
}

/// `serde_json::to_string_pretty` on a `serde_json::Value`: indented,
/// multi-line JSON.
#[verifier::external_body]
pub(crate) fn json_to_string_pretty(value: &serde_json::Value) -> (text: Result<String, serde_json::Error>)
    ensures
        match text {
            Ok(s) => json_pretty(json_view(*value)) == Some(s@),
            Err(_) => json_pretty(json_view(*value)) is None,
        },
{
    serde_json::to_string_pretty(value)
}

} // verus!
