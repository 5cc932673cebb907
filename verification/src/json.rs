//! Bindings to `serde_json`: the document type that records are staged in, a
//! mathematical model of it, and one contract for each call that the library
//! makes into the crate.  The contracts in this file are not proved: each
//! says what the crate's source shows of the function it names.

use vstd::prelude::*;

verus! {

/// `serde_json::Value`, a JSON document.
#[verifier::external_type_specification]
#[verifier::external_body]
pub struct ExValue(serde_json::Value);

/// `serde_json::Map`, the members of a JSON object.
#[verifier::external_type_specification]
#[verifier::external_body]
#[verifier::reject_recursive_types(K)]
#[verifier::reject_recursive_types(V)]
pub struct ExMap<K, V>(serde_json::Map<K, V>);

/// `serde_json::Error`, what the crate reports where it cannot read or
/// write a document.
#[verifier::external_type_specification]
#[verifier::external_body]
pub struct ExError(serde_json::Error);

/// The members of a JSON object, as the crate keeps them.
pub type Fields = serde_json::Map<String, serde_json::Value>;

/// What a JSON document holds.
pub enum Json {
    Null,
    Bool(bool),
    /// A number that the crate keeps as an integer: one from `i64::MIN` to
    /// `u64::MAX` that is written without fraction or exponent.
    Integer(int),
    /// Any other number, which the crate keeps in binary, by its bit
    /// pattern.
    Fraction(int),
    Text(Seq<char>),
    Array(Seq<Json>),
    Object(Map<Seq<char>, Json>),
}

/// What `value` holds.
pub uninterp spec fn json_model(value: serde_json::Value) -> Json;

/// The members that `fields` holds, by key.
pub uninterp spec fn object_model(fields: Fields) -> Map<Seq<char>, Json>;

/// The bytes that `serde_json::to_vec` writes for `value`.
pub uninterp spec fn json_bytes(value: serde_json::Value) -> Seq<u8>;

/// What `serde_json::from_slice` reads from `bytes`: the document, or nothing
/// where the bytes are not one JSON document.
pub uninterp spec fn json_parsed(bytes: Seq<u8>) -> Option<Json>;

/// The members of an object that has none.
pub open spec fn no_members() -> Map<Seq<char>, Json> {
    Map::empty()
}

/// What each of `items` holds, in order.
pub open spec fn models_of(items: Seq<serde_json::Value>) -> Seq<Json> {
    Seq::new(items.len(), |i: int| json_model(items[i]))
}

/// `Value::Null`, the JSON null.
#[verifier::external_body]
pub(crate) fn json_null() -> (value: serde_json::Value)
    ensures
        json_model(value) == Json::Null,
{
    serde_json::Value::Null
}

/// `Value::from` on a `u64`, which makes the JSON number with that value.
#[verifier::external_body]
pub(crate) fn json_number(number: u64) -> (value: serde_json::Value)
    ensures
        json_model(value) == Json::Integer(number as int),
{
    serde_json::Value::from(number)
}

/// `Value::from` on a `String`, which makes the JSON string with that text.
#[verifier::external_body]
pub(crate) fn json_string(text: String) -> (value: serde_json::Value)
    ensures
        json_model(value) == Json::Text(text@),
{
    serde_json::Value::from(text)
}

/// `Value::Array`, the JSON array of `items` in their order.
#[verifier::external_body]
pub(crate) fn json_array(items: Vec<serde_json::Value>) -> (value: serde_json::Value)
    ensures
        json_model(value) == Json::Array(models_of(items@)),
{
    serde_json::Value::Array(items)
}

/// `Value::Object`, the JSON object with the members of `fields`.
#[verifier::external_body]
pub(crate) fn json_object(fields: Fields) -> (value: serde_json::Value)
    ensures
        json_model(value) == Json::Object(object_model(fields)),
{
    serde_json::Value::Object(fields)
}

/// `Map::new`, which makes a map without members.
#[verifier::external_body]
pub(crate) fn new_fields() -> (empty: Fields)
    ensures
        object_model(empty) == no_members(),
{
    serde_json::Map::new()
}

/// `Map::insert`: afterwards the map holds `value` for `key` and is otherwise
/// unchanged; the value that `key` had before is returned.
#[verifier::external_body]
pub(crate) fn fields_insert(
    fields: &mut Fields,
    key: String,
    value: serde_json::Value,
) -> (previous: Option<serde_json::Value>)
    ensures
        object_model(*final(fields)) == object_model(*old(fields)).insert(key@, json_model(value)),
        match previous {
            Some(before) => object_model(*old(fields)).contains_key(key@) && json_model(before)
                == object_model(*old(fields))[key@],
            None => !object_model(*old(fields)).contains_key(key@),
        },
{
    fields.insert(key, value)
}

/// `Map::iter`, collected: every member once, each with the value that the
/// map holds for its key.  The order is the map's own and is left open.
#[verifier::external_body]
pub(crate) fn fields_entries<'a>(fields: &'a Fields) -> (entries: Vec<
    (&'a String, &'a serde_json::Value),
>)
    ensures
        forall|i: int, j: int|
            0 <= i < j < entries@.len() ==> (#[trigger] entries@[i]).0@ != (#[trigger] entries@[j]).0@,
        forall|i: int|
            0 <= i < entries@.len() ==> object_model(*fields).contains_key(
                (#[trigger] entries@[i]).0@,
            ) && object_model(*fields)[entries@[i].0@] == json_model(*entries@[i].1),
        forall|key: Seq<char>| #[trigger]
            object_model(*fields).contains_key(key) ==> exists|i: int|
                0 <= i < entries@.len() && (#[trigger] entries@[i]).0@ == key,
{
    fields.iter().collect()
}

/// `Value::get` with a string index: the member for `key` where `value` is an
/// object that has one, and nothing otherwise.
#[verifier::external_body]
pub(crate) fn value_get<'a>(value: &'a serde_json::Value, key: &str) -> (member: Option<
    &'a serde_json::Value,
>)
    ensures
        match member {
            Some(found) => json_model(*value) matches Json::Object(fields) && fields.contains_key(
                key@,
            ) && json_model(*found) == fields[key@],
            None => json_model(*value) matches Json::Object(fields) ==> !fields.contains_key(key@),
        },
{
    value.get(key)
}

/// `Value::as_u64`: the number where `value` is an integer from 0 to
/// `u64::MAX`, and nothing otherwise.
#[verifier::external_body]
pub(crate) fn value_as_u64(value: &serde_json::Value) -> (number: Option<u64>)
    ensures
        match number {
            Some(n) => json_model(*value) == Json::Integer(n as int),
            None => json_model(*value) matches Json::Integer(n) ==> !(0 <= n <= u64::MAX),
        },
{
    value.as_u64()
}

/// `Value::as_str`: the text where `value` is a string, and nothing otherwise.
#[verifier::external_body]
pub(crate) fn value_as_str<'a>(value: &'a serde_json::Value) -> (text: Option<&'a str>)
    ensures
        match text {
            Some(found) => json_model(*value) == Json::Text(found@),
            None => !(json_model(*value) is Text),
        },
{
    value.as_str()
}

/// `Value::as_array`: the items where `value` is an array, and nothing
/// otherwise.
#[verifier::external_body]
pub(crate) fn value_as_array<'a>(value: &'a serde_json::Value) -> (items: Option<
    &'a Vec<serde_json::Value>,
>)
    ensures
        match items {
            Some(found) => json_model(*value) == Json::Array(models_of(found@)),
            None => !(json_model(*value) is Array),
        },
{
    value.as_array()
}

/// `Value::as_object`: the members where `value` is an object, and nothing
/// otherwise.
#[verifier::external_body]
pub(crate) fn value_as_object<'a>(value: &'a serde_json::Value) -> (fields: Option<&'a Fields>)
    ensures
        match fields {
            Some(found) => json_model(*value) == Json::Object(object_model(*found)),
            None => !(json_model(*value) is Object),
        },
{
    value.as_object()
}

/// `Value::as_object_mut`: where `value` is an object, its members, and what
/// is done to them is done to `value`; otherwise nothing, and `value` stays
/// as it is.
#[verifier::external_body]
pub(crate) fn value_as_object_mut<'a>(value: &'a mut serde_json::Value) -> (fields: Option<
    &'a mut Fields,
>)
    ensures
        match fields {
            Some(found) => json_model(*old(value)) == Json::Object(object_model(*found))
                && json_model(*final(value)) == Json::Object(object_model(*final(found))),
            None => !(json_model(*old(value)) is Object) && *final(value) == *old(value),
        },
{
    value.as_object_mut()
}

/// `serde_json::from_slice` into a `Value`: the document that the bytes spell,
/// or the crate's error where they spell none.
#[verifier::external_body]
pub(crate) fn parse_json(bytes: &[u8]) -> (outcome: Result<serde_json::Value, serde_json::Error>)
    ensures
        match outcome {
            Ok(value) => json_parsed(bytes@) == Some(json_model(value)),
            Err(_) => json_parsed(bytes@) is None,
        },
{
    serde_json::from_slice(bytes)
}

/// `serde_json::to_vec` on a `Value`: the bytes that spell the document.
/// Writing a `Value` into a vector of bytes does not fail: the crate reports
/// an error only where the writer does or where a key is no string, and a
/// vector takes every byte and the keys of a `Value` are strings.
#[verifier::external_body]
pub(crate) fn render_json(value: &serde_json::Value) -> (outcome: Result<Vec<u8>, serde_json::Error>)
    ensures
        outcome is Ok,
        outcome matches Ok(bytes) ==> bytes@ == json_bytes(*value),
{
    serde_json::to_vec(value)
}

} // verus!
