//! JSON documents, read with `serde_json`.

use vstd::prelude::*;

verus! {

/// The mathematical content of a JSON document.
pub enum Json {
    Null,
    Bool(bool),
    /// A number that the parser holds as an integer.
    Integer(int),
    /// A number that the parser holds in floating point: one written with a fraction or an
    /// exponent, or one that is too large for an integer. Its value is not modelled.
    Decimal,
    String(Seq<char>),
    Array(Seq<Json>),
    Object(Map<Seq<char>, Json>),
}

impl Json {
    /// The member `key` of an object; nothing for a missing member or for another kind of value.
    pub open spec fn member(self, key: Seq<char>) -> Option<Json> {
        match self {
            Json::Object(members) => if members.contains_key(key) {
                Some(members[key])
            } else {
                None
            },
            _ => None,
        }
    }

    /// The characters of a string; nothing for another kind of value.
    pub open spec fn as_string(self) -> Option<Seq<char>> {
        match self {
            Json::String(text) => Some(text),
            _ => None,
        }
    }

    /// An integer that fits in 64 bits with a sign; nothing for another kind of value.
    pub open spec fn as_i64(self) -> Option<i64> {
        match self {
            Json::Integer(number) => if i64::MIN <= number <= i64::MAX {
                Some(number as i64)
            } else {
                None
            },
            _ => None,
        }
    }
}

/// `serde_json::Value`, of which only [`json_model`] is known.
#[verifier::external_type_specification]
#[verifier::external_body]
pub struct ExValue(serde_json::Value);

/// `serde_json::Error`, of which nothing is known.
#[verifier::external_type_specification]
#[verifier::external_body]
pub struct ExError(serde_json::Error);

/// The document that a `serde_json::Value` holds: the variant of the value tells the kind of
/// the document, and a number is an [`Json::Integer`] where the value holds it as an integer
/// of 64 bits, with or without a sign.
pub uninterp spec fn json_model(value: serde_json::Value) -> Json;

/// The document that `serde_json::from_str` reads from a text at the type
/// `serde_json::Value`; nothing where it refuses the text.
pub uninterp spec fn json_parse(text: Seq<char>) -> Option<Json>;

/// `serde_json::from_str` at the type `serde_json::Value`: whether a text is accepted, and the
/// document read from it, depend on the text alone.
#[verifier::external_body]
pub(crate) fn value_from_str(text: &str) -> (outcome: Result<serde_json::Value, serde_json::Error>)
    ensures
        match outcome {
            Ok(value) => json_parse(text@) == Some(json_model(value)),
            Err(_) => json_parse(text@) is None,
        },
{
    serde_json::from_str::<serde_json::Value>(text)
}

/// `serde_json::Value::get` with a string index: the member of that name where the value is an
/// object that has one, else nothing.
#[verifier::external_body]
pub(crate) fn value_get<'a>(value: &'a serde_json::Value, key: &str) -> (member: Option<
    &'a serde_json::Value,
>)
    ensures
        match member {
            Some(found) => json_model(*value).member(key@) == Some(json_model(*found)),
            None => json_model(*value).member(key@) is None,
        },
{
    value.get(key)
}

/// `serde_json::Value::as_str`: the text of a string, nothing for any other value.
#[verifier::external_body]
pub(crate) fn value_as_str<'a>(value: &'a serde_json::Value) -> (text: Option<&'a str>)
    ensures
        match text {
            Some(s) => json_model(*value).as_string() == Some(s@),
            None => json_model(*value).as_string() is None,
        },
{
    value.as_str()
}

/// `serde_json::Value::as_i64`: the number where the value is an integer that fits in an `i64`,
/// nothing for any other value.
#[verifier::external_body]
pub(crate) fn value_as_i64(value: &serde_json::Value) -> (number: Option<i64>)
    ensures
        number == json_model(*value).as_i64(),
{
    value.as_i64()
}

/// `serde_json::Value::is_null`.
#[verifier::external_body]
pub(crate) fn value_is_null(value: &serde_json::Value) -> (null: bool)
    ensures
        null == (json_model(*value) is Null),
{
    value.is_null()
}

} // verus!
