//! JSON objects of `serde_json`, as far as token payloads need them: an object
//! is filled with string and integer members and read back member by member.

use vstd::prelude::*;

verus! {

/// `serde_json::Value`, carried as an opaque value.
#[verifier::external_type_specification]
#[verifier::external_body]
pub struct ExJsonValue(serde_json::Value);

/// `serde_json::Map`, the object type of `serde_json`, carried as an opaque
/// value whose members are named by [`json_keys`], [`json_texts`] and
/// [`json_ints`].
#[verifier::external_type_specification]
#[verifier::external_body]
#[verifier::reject_recursive_types(K)]
#[verifier::reject_recursive_types(V)]
pub struct ExJsonMap<K, V>(serde_json::Map<K, V>);

/// A JSON object as `serde_json` holds it.
pub type JsonObject = serde_json::Map<String, serde_json::Value>;

/// String members by key.
pub type JsonTexts = Map<Seq<char>, Seq<char>>;

/// Integer members by key.
pub type JsonInts = Map<Seq<char>, int>;

/// `true` where every member of `object` is a string or an integer that fits
/// `i64`.
pub open spec fn json_is_flat(object: JsonObject) -> bool {
    json_keys(object) == json_texts(object).dom().union(json_ints(object).dom())
}

/// The keys of all members of a JSON object, whatever their values.
pub uninterp spec fn json_keys(object: JsonObject) -> Set<Seq<char>>;

/// The members of a JSON object whose value is a JSON string, by key.
pub uninterp spec fn json_texts(object: JsonObject) -> JsonTexts;

/// The members of a JSON object whose value is an integer that fits `i64`, by
/// key.
pub uninterp spec fn json_ints(object: JsonObject) -> JsonInts;

/// `serde_json::Map::new`: an object without members.
#[verifier::external_body]
pub(crate) fn json_object() -> (object: JsonObject)
    ensures
        json_keys(object) == Set::<Seq<char>>::empty(),
        json_texts(object) == JsonTexts::empty(),
        json_ints(object) == JsonInts::empty(),
{
    serde_json::Map::new()
}

/// `serde_json::Map::insert` with a `Value::String`: the member `key` becomes
/// the string `text`, replacing whatever member had that key; the other
/// members stay.
#[verifier::external_body]
pub(crate) fn json_put_text(
    object: &mut JsonObject,
    key: &str,
    text: &str,
)
    ensures
        json_keys(*final(object)) == json_keys(*old(object)).insert(key@),
        json_texts(*final(object)) == json_texts(*old(object)).insert(key@, text@),
        json_ints(*final(object)) == json_ints(*old(object)).remove(key@),
{
    object.insert(key.to_string(), serde_json::Value::String(text.to_string()));
}

/// `serde_json::Map::insert` with a `Value::Number` made from an `i64`: the
/// member `key` becomes the integer `number`, replacing whatever member had
/// that key; the other members stay.
#[verifier::external_body]
pub(crate) fn json_put_int(
    object: &mut JsonObject,
    key: &str,
    number: i64,
)
    ensures
        json_keys(*final(object)) == json_keys(*old(object)).insert(key@),
        json_texts(*final(object)) == json_texts(*old(object)).remove(key@),
        json_ints(*final(object)) == json_ints(*old(object)).insert(key@, number as int),
{
    object.insert(key.to_string(), serde_json::Value::from(number));
}

/// `serde_json::Map::get` followed by `Value::as_str`: the string under `key`,
/// or `None` where the object has no such member or the member is no string.
#[verifier::external_body]
pub(crate) fn json_get_text(
    object: &JsonObject,
    key: &str,
) -> (text: Option<String>)
    ensures
        text is Some <==> json_texts(*object).contains_key(key@),
        text matches Some(t) ==> t@ == json_texts(*object)[key@],
{
    match object.get(key) {
        Some(serde_json::Value::String(text)) => Some(text.clone()),
        _ => None,
    }
}

/// `serde_json::Map::get` followed by `Value::as_i64`: the integer under
/// `key`, or `None` where the object has no such member or the member is no
/// integer that fits `i64`.
#[verifier::external_body]
pub(crate) fn json_get_int(
    object: &JsonObject,
    key: &str,
) -> (number: Option<i64>)
    ensures
        number is Some <==> json_ints(*object).contains_key(key@),
        number matches Some(n) ==> n as int == json_ints(*object)[key@],
{
    match object.get(key) {
        Some(value) => value.as_i64(),
        None => None,
    }
}

} // verus!
