//! JSON values: `serde_json::Value` and `serde_json::Map` with a mathematical
//! reading, and verified builders on top of them.
//!
//! Everything that is believed of `serde_json` without proof stands in this
//! file. The two types are opaque; [`json_of`] and [`members_of`] name what
//! they hold, and each wrapper says what one `serde_json` function does to it.

use serde_json::Value;
use vstd::prelude::*;

verus! {

/// What a JSON value is, mathematically. A number is the text that
/// `serde_json` prints for it; nothing here computes with one.
#[verifier::ext_equal]
pub enum Json {
    Null,
    Bool(bool),
    Number(Seq<char>),
    Str(Seq<char>),
    Array(Seq<Json>),
    Object(Map<Seq<char>, Json>),
}

impl Json {
    /// The member `key` of an object that has one.
    pub open spec fn member(self, key: Seq<char>) -> Option<Json> {
        match self {
            Json::Object(members) => if members.contains_key(key) {
                Some(members[key])
            } else {
                None
            },
            _ => None,
        }
    }

    /// The text of a JSON string.
    pub open spec fn text(self) -> Option<Seq<char>> {
        match self {
            Json::Str(text) => Some(text),
            _ => None,
        }
    }

    /// The text of the member `key`, where that member is a JSON string.
    pub open spec fn member_text(self, key: Seq<char>) -> Option<Seq<char>> {
        match self.member(key) {
            Some(value) => value.text(),
            None => None,
        }
    }

    /// This object with the member `key` set to `value`. What is not an object
    /// stays as it is.
    pub open spec fn with_member(self, key: Seq<char>, value: Json) -> Json {
        match self {
            Json::Object(members) => Json::Object(members.insert(key, value)),
            _ => self,
        }
    }
}

/// `serde_json::Value`, carried as an opaque value.
#[verifier::external_type_specification]
#[verifier::external_body]
pub struct ExValue(serde_json::Value);

/// `serde_json::Map`, carried as an opaque value.
#[verifier::external_type_specification]
#[verifier::external_body]
#[verifier::reject_recursive_types(K)]
#[verifier::reject_recursive_types(V)]
pub struct ExMap<K, V>(serde_json::Map<K, V>);

/// What a `serde_json::Value` holds.
pub uninterp spec fn json_of(value: serde_json::Value) -> Json;

/// What a `serde_json::Map` holds: its values by their keys.
pub uninterp spec fn members_of(map: serde_json::Map<String, serde_json::Value>) -> Map<
    Seq<char>,
    Json,
>;

/// `serde_json::Value::get` with a string index: the member of that name where
/// the value is an object that has one, else `None`.
#[verifier::external_body]
pub(crate) fn value_get<'a>(value: &'a Value, key: &str) -> (found: Option<&'a Value>)
    ensures
        match found {
            Some(member) => json_of(*value).member(key@) == Some(json_of(*member)),
            None => json_of(*value).member(key@) is None,
        },
{
    value.get(key)
}

/// `serde_json::Value::as_str`: the text where the value is a string, else
/// `None`.
#[verifier::external_body]
pub(crate) fn value_as_str(value: &Value) -> (text: Option<&str>)
    ensures
        match text {
            Some(text) => json_of(*value).text() == Some(text@),
            None => json_of(*value).text() is None,
        },
{
    value.as_str()
}

/// `serde_json::Value::clone`: a value that holds the same JSON.
#[verifier::external_body]
pub(crate) fn value_clone(value: &Value) -> (copy: Value)
    ensures
        json_of(copy) == json_of(*value),
{
    value.clone()
}

/// `serde_json::Value::from` a `bool`: that JSON boolean.
#[verifier::external_body]
pub(crate) fn value_from_bool(flag: bool) -> (value: Value)
    ensures
        json_of(value) == Json::Bool(flag),
{
    Value::from(flag)
}

/// `serde_json::Value::from` a `String`: the JSON string with that text.
#[verifier::external_body]
pub(crate) fn value_from_string(text: String) -> (value: Value)
    ensures
        json_of(value) == Json::Str(text@),
{
    Value::from(text)
}

/// `serde_json::Value::from` a `Vec<Value>`: the JSON array of those items, in
/// that order.
#[verifier::external_body]
pub(crate) fn value_from_vec(items: Vec<Value>) -> (value: Value)
    ensures
        json_of(value) == Json::Array(items@.map_values(|item: Value| json_of(item))),
{
    Value::from(items)
}

/// `serde_json::Value::from` a `serde_json::Map`: the JSON object with those
/// members.
#[verifier::external_body]
pub(crate) fn value_from_map(map: serde_json::Map<String, Value>) -> (value: Value)
    ensures
        json_of(value) == Json::Object(members_of(map)),
{
    Value::from(map)
}

/// `serde_json::Map::new`: a map without members.
#[verifier::external_body]
pub(crate) fn map_new() -> (map: serde_json::Map<String, Value>)
    ensures
        (members_of(map) == Map::<Seq<char>, Json>::empty()),
{
    serde_json::Map::new()
}

/// `serde_json::Map::insert`: sets the member `key`, leaves the others alone
/// and hands back what stood under `key` before.
#[verifier::external_body]
pub(crate) fn map_insert(
    map: &mut serde_json::Map<String, Value>,
    key: String,
    value: Value,
) -> (previous: Option<Value>)
    ensures
        members_of(*final(map)) == members_of(*old(map)).insert(key@, json_of(value)),
        match previous {
            Some(before) => members_of(*old(map)).contains_key(key@) && json_of(before)
                == members_of(*old(map))[key@],
            None => !members_of(*old(map)).contains_key(key@),
        },
{
    map.insert(key, value)
}

/// The text of the member `key` of `value`, where it is a JSON string.
pub fn member_str<'a>(value: &'a Value, key: &str) -> (text: Option<&'a str>)
    ensures
        match text {
            Some(text) => json_of(*value).member_text(key@) == Some(text@),
            None => json_of(*value).member_text(key@) is None,
        },
{
    match value_get(value, key) {
        Some(member) => value_as_str(member),
        None => None,
    }
}

/// The JSON string with the text `text`.
pub fn string(text: &str) -> (value: Value)
    ensures
        json_of(value) == Json::Str(text@),
{
    value_from_string(text.to_owned())
}

/// The JSON array with the one item `item`.
pub fn array1(item: Value) -> (value: Value)
    ensures
        json_of(value) == Json::Array(seq![json_of(item)]),
{
    let ghost before = item;
    let mut items: Vec<Value> = Vec::new();
    items.push(item);
    proof {
        assert(items@.map_values(|v: Value| json_of(v)) =~= seq![json_of(before)]);
    }
    value_from_vec(items)
}

/// The JSON object with one member.
pub fn object1(key: &str, member: Value) -> (value: Value)
    ensures
        json_of(value) == Json::Object(map![key@ => json_of(member)]),
{
    let mut map = map_new();
    map_insert(&mut map, key.to_owned(), member);
    value_from_map(map)
}

/// The JSON object with two members; where the keys are the same, the second
/// member stands.
pub fn object2(key1: &str, member1: Value, key2: &str, member2: Value) -> (value: Value)
    ensures
        json_of(value) == Json::Object(
            map![key1@ => json_of(member1), key2@ => json_of(member2)],
        ),
{
    let mut map = map_new();
    map_insert(&mut map, key1.to_owned(), member1);
    map_insert(&mut map, key2.to_owned(), member2);
    value_from_map(map)
}

/// The JSON object with three members; of members under the same key the last
/// one stands.
pub fn object3(
    key1: &str,
    member1: Value,
    key2: &str,
    member2: Value,
    key3: &str,
    member3: Value,
) -> (value: Value)
    ensures
        json_of(value) == Json::Object(
            map![key1@ => json_of(member1), key2@ => json_of(member2), key3@ => json_of(member3)],
        ),
{
    let mut map = map_new();
    map_insert(&mut map, key1.to_owned(), member1);
    map_insert(&mut map, key2.to_owned(), member2);
    map_insert(&mut map, key3.to_owned(), member3);
    value_from_map(map)
}

} // verus!
