//! JSON values of the `serde_json` crate, as far as the client reads them.

use vstd::prelude::*;

verus! {

#[verifier::external_type_specification]
#[verifier::external_body]
pub struct ExValue(serde_json::Value);

/// The members of a JSON object whose values are strings, each under its
/// key. A value that is no object has none.
pub uninterp spec fn json_strings(value: serde_json::Value) -> Map<Seq<char>, Seq<char>>;

/// The string members of the JSON value that a text is read as, or `None`
/// where the text is no JSON.
pub uninterp spec fn json_parsed(text: Seq<char>) -> Option<Map<Seq<char>, Seq<char>>>;

/// Calls `serde_json::from_str` for a `Value`. An error comes back as the
/// text it displays as.
#[verifier::external_body]
pub(crate) fn json_parse(text: &str) -> (res: Result<serde_json::Value, String>)
    ensures
        res is Ok <==> json_parsed(text@) is Some,
        res matches Ok(value) ==> Some(json_strings(value)) == json_parsed(text@),
{
    match serde_json::from_str::<serde_json::Value>(text) {
        Ok(value) => Ok(value),
        Err(error) => Err(error.to_string()),
    }
}

/// Indexes the value by `key` and calls `Value::as_str` on what stands
/// there: the string under the key, if the value is an object that holds a
/// string there.
#[verifier::external_body]
pub(crate) fn json_string_member(value: &serde_json::Value, key: &str) -> (res: Option<String>)
    ensures
        res is Some <==> json_strings(*value).contains_key(key@),
        res matches Some(text) ==> text@ == json_strings(*value)[key@],
{
    match value[key].as_str() {
        Some(text) => Some(text.to_string()),
        None => None,
    }
}

/// Indexes the value by `key` and clones what stands there; where nothing
/// stands there, that is the JSON value `null`.
#[verifier::external_body]
pub(crate) fn json_member(value: &serde_json::Value, key: &str) -> (res: serde_json::Value) {
    value[key].clone()
}

} // verus!
