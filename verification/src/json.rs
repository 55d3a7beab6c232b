//! A mathematical reading of `serde_json::Value`, and the few accessors the
//! decoders need, each specified against that reading.

use vstd::prelude::*;
use crate::error::DataError;

verus! {

/// `serde_json::Value`, carried as an opaque value: what it holds is read
/// through `json_model` only.
#[verifier::external_type_specification]
#[verifier::external_body]
pub struct ExValue(serde_json::Value);

/// `serde_json::Error`, carried as an opaque value and never looked into.
#[verifier::external_type_specification]
#[verifier::external_body]
pub struct ExJsonError(serde_json::Error);

/// A JSON number: either an integer, or a number with a fraction or exponent.
pub enum JsonNumber {
    Int(int),
    Real,
}

/// A JSON document as a tree of plain values.
pub enum Json {
    Null,
    Bool(bool),
    Number(JsonNumber),
    Text(Seq<char>),
    Array(Seq<Json>),
    Object(Map<Seq<char>, Json>),
}

/// The document that a `serde_json::Value` holds.
pub uninterp spec fn json_model(v: serde_json::Value) -> Json;

/// The document that `serde_json::from_str` reads from a text, if it reads one.
pub uninterp spec fn json_parsed(text: Seq<char>) -> Option<Json>;

/// `serde_json::from_str` at type `Value`: succeeds exactly on the texts that
/// `json_parsed` reads, and the value then holds that document.
#[verifier::external_body]
pub(crate) fn parse_value(text: &str) -> (r: Result<serde_json::Value, serde_json::Error>)
    ensures
        match r {
            Ok(v) => json_parsed(text@) == Some(json_model(v)),
            Err(_) => json_parsed(text@) is None,
        },
{
    serde_json::from_str::<serde_json::Value>(text)
}

/// `Value::get` with a string key: the member of that name when the value is
/// an object that has one, and `None` otherwise.
#[verifier::external_body]
pub(crate) fn member<'a>(v: &'a serde_json::Value, key: &str) -> (r: Option<&'a serde_json::Value>)
    ensures
        match json_model(*v) {
            Json::Object(m) if m.dom().contains(key@) => r matches Some(c) && json_model(*c) == m[key@],
            _ => r is None,
        },
{
    v.get(key)
}

/// `Value::as_str`: the text when the value is a string, and `None` otherwise.
#[verifier::external_body]
pub(crate) fn as_text<'a>(v: &'a serde_json::Value) -> (r: Option<&'a str>)
    ensures
        match json_model(*v) {
            Json::Text(t) => r matches Some(s) && s@ == t,
            _ => r is None,
        },
{
    v.as_str()
}

/// `Value::as_u64`: the number when the value is an integer that is not
/// negative, and `None` otherwise.
#[verifier::external_body]
pub(crate) fn as_unsigned(v: &serde_json::Value) -> (r: Option<u64>)
    ensures
        match json_model(*v) {
            Json::Number(JsonNumber::Int(i)) if 0 <= i <= u64::MAX => r == Some(i as u64),
            _ => r is None,
        },
{
    v.as_u64()
}

/// `Value::as_i64`: the number when the value is an integer that an `i64`
/// holds, and `None` otherwise.
#[verifier::external_body]
pub(crate) fn as_signed(v: &serde_json::Value) -> (r: Option<i64>)
    ensures
        match json_model(*v) {
            Json::Number(JsonNumber::Int(i)) if i64::MIN <= i <= i64::MAX => r == Some(i as i64),
            _ => r is None,
        },
{
    v.as_i64()
}

/// `Value::as_bool`: the truth value when the value is a boolean, and `None`
/// otherwise.
#[verifier::external_body]
pub(crate) fn as_flag(v: &serde_json::Value) -> (r: Option<bool>)
    ensures
        match json_model(*v) {
            Json::Bool(b) => r == Some(b),
            _ => r is None,
        },
{
    v.as_bool()
}

/// `Value::as_array`: the items when the value is an array, each holding the
/// document at its place, and `None` otherwise.
#[verifier::external_body]
pub(crate) fn as_items<'a>(v: &'a serde_json::Value) -> (r: Option<&'a Vec<serde_json::Value>>)
    ensures
        match json_model(*v) {
            Json::Array(items) => r matches Some(a) && a@.len() == items.len() && forall|i: int|
                0 <= i < items.len() ==> json_model(#[trigger] a@[i]) == items[i],
            _ => r is None,
        },
{
    v.as_array()
}

/// `Value::is_null`: whether the value is JSON's `null`.
#[verifier::external_body]
pub(crate) fn is_null(v: &serde_json::Value) -> (r: bool)
    ensures
        r == (json_model(*v) is Null),
{
    v.is_null()
}

/// The member of a document under a name: there is one where the document is
/// an object that has the name.
pub open spec fn member_of(j: Json, key: Seq<char>) -> Option<Json> {
    match j {
        Json::Object(m) => if m.dom().contains(key) {
            Some(m[key])
        } else {
            None
        },
        _ => None,
    }
}

/// Reads a text as one JSON document.
pub fn parse(text: &str) -> (r: Result<serde_json::Value, DataError>)
    ensures
        match json_parsed(text@) {
            Some(j) => r matches Ok(v) && json_model(v) == j,
            None => r matches Err(e) && e == DataError::Syntax,
        },
{
    match parse_value(text) {
        Ok(v) => Ok(v),
        Err(_) => Err(DataError::Syntax),
    }
}

} // verus!
