//! JSON values as `serde_json` holds them, and what this library needs of them.
//!
//! A `serde_json::Value` is opaque to the verifier. Contracts speak of its
//! model, a `Json`, and the calls into `serde_json` are stated over that model.

use serde_json::{Error as JsonError, Map as JsonMap, Value};
use vstd::prelude::*;

verus! {

/// `serde_json::Value`, a JSON value. Nothing of its inside is seen here.
#[verifier::external_type_specification]
#[verifier::external_body]
pub struct ExValue(serde_json::Value);

/// `serde_json::Map`, the members of a JSON object under their keys. Nothing
/// of its inside is seen here.
#[verifier::external_type_specification]
#[verifier::external_body]
#[verifier::reject_recursive_types(K)]
#[verifier::reject_recursive_types(V)]
pub struct ExMap<K, V>(serde_json::Map<K, V>);

/// `serde_json::Error`, the failure of a parse or of a serialisation. It is
/// carried from the call to the place that makes a failure of this library of
/// it, and never looked into.
#[verifier::external_type_specification]
#[verifier::external_body]
pub struct ExError(serde_json::Error);

/// A JSON number: an integer between the least `i64` and the greatest `u64`,
/// or any other finite number, held by the bits of its double.
pub enum JsonNumber {
    Integer(int),
    Real(u64),
}

/// The mathematical model of a JSON value. The members of an object are a
/// map: a key occurs once, and no order is kept.
pub enum Json {
    Null,
    Bool(bool),
    Number(JsonNumber),
    String(Seq<char>),
    Array(Seq<Json>),
    Object(Map<Seq<char>, Json>),
}

/// The model of a `serde_json::Value`: null and the booleans as they are, a
/// string by its characters, an array by the models of its items in their
/// order, an object by the models of its members, an integer by its value and
/// any other number by the bits of the double that holds it.
pub uninterp spec fn json_model(v: Value) -> Json;

/// The members that a `serde_json::Map` holds, each by its model.
pub uninterp spec fn object_members(m: JsonMap<String, Value>) -> Map<Seq<char>, Json>;

/// What `serde_json::from_slice` makes of `bytes`: the value that the text
/// spells, or nothing where the bytes are no UTF-8 JSON text.
pub uninterp spec fn json_parsed(bytes: Seq<u8>) -> Option<Json>;

/// The compact text that `serde_json::to_string` writes for a value, or
/// nothing where it refuses the value.
pub uninterp spec fn json_text(j: Json) -> Option<Seq<char>>;

/// The members of an empty object.
pub open spec fn no_members() -> Map<Seq<char>, Json> {
    Map::empty()
}

/// The member of an object under `key`; nothing for a missing key or a value
/// that is no object.
pub open spec fn member(j: Json, key: Seq<char>) -> Option<Json> {
    match j {
        Json::Object(members) => if members.contains_key(key) {
            Some(members[key])
        } else {
            None
        },
        _ => None,
    }
}

/// The value of an integer that fits `i64`; nothing for any other value.
pub open spec fn as_integer(j: Json) -> Option<i64> {
    match j {
        Json::Number(JsonNumber::Integer(n)) => if i64::MIN <= n <= i64::MAX {
            Some(n as i64)
        } else {
            None
        },
        _ => None,
    }
}

/// Parses with `serde_json::from_slice`, which reads one JSON value from the
/// bytes and fails on anything else, trailing text included.
#[verifier::external_body]
pub(crate) fn parse(bytes: &[u8]) -> (r: Result<Value, JsonError>)
    ensures
        match r {
            Ok(v) => json_parsed(bytes@) == Some(json_model(v)),
            Err(_) => json_parsed(bytes@) is None,
        },
{
    serde_json::from_slice(bytes)
}

/// Serialises with `serde_json::to_string`, which writes the value as compact
/// JSON text. With the crate's default features an object writes its members
/// in the order of their keys, so the text depends on the model alone.
#[verifier::external_body]
pub(crate) fn to_text(v: &Value) -> (r: Result<String, JsonError>)
    ensures
        match r {
            Ok(text) => json_text(json_model(*v)) == Some(text@),
            Err(_) => json_text(json_model(*v)) is None,
        },
{
    serde_json::to_string(v)
}

/// Looks a member up with `serde_json::Value::get`, which finds the value
/// under a string key in an object and nothing in any other value.
#[verifier::external_body]
pub(crate) fn get<'a>(v: &'a Value, key: &str) -> (r: Option<&'a Value>)
    ensures
        match r {
            Some(found) => member(json_model(*v), key@) == Some(json_model(*found)),
            None => member(json_model(*v), key@) is None,
        },
{
    v.get(key)
}

/// Reads an integer with `serde_json::Value::as_i64`, which gives the number
/// where the value is an integer that fits `i64`.
#[verifier::external_body]
pub(crate) fn as_i64(v: &Value) -> (r: Option<i64>)
    ensures
        r == as_integer(json_model(*v)),
{
    v.as_i64()
}

/// Makes a number with `serde_json::Value::from`, of an `i64`.
#[verifier::external_body]
pub(crate) fn from_i64(n: i64) -> (v: Value)
    ensures
        json_model(v) == Json::Number(JsonNumber::Integer(n as int)),
{
    Value::from(n)
}

/// Makes a string with `serde_json::Value::from`, of a `String`.
#[verifier::external_body]
pub(crate) fn from_string(s: String) -> (v: Value)
    ensures
        json_model(v) == Json::String(s@),
{
    Value::from(s)
}

/// Makes an object with `serde_json::Value::from`, of a map, whose members it
/// keeps.
#[verifier::external_body]
pub(crate) fn from_members(m: JsonMap<String, Value>) -> (v: Value)
    ensures
        json_model(v) == Json::Object(object_members(m)),
{
    Value::from(m)
}

/// Makes a map without members with `serde_json::Map::new`.
#[verifier::external_body]
pub(crate) fn new_members() -> (members: JsonMap<String, Value>)
    ensures
        object_members(members) == no_members(),
{
    JsonMap::new()
}

/// Sets a member with `serde_json::Map::insert`, which puts the value under
/// the key, in place of the one that was there, if any.
#[verifier::external_body]
pub(crate) fn insert(m: &mut JsonMap<String, Value>, key: String, value: Value)
    ensures
        object_members(*final(m)) == object_members(*old(m)).insert(key@, json_model(value)),
{
    m.insert(key, value);
}

} // verus!
