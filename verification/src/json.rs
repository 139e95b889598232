//! The JSON reader that the library relies on.
//!
//! Nothing in this file is proved. Each item states what the library takes for
//! granted about `serde_json`; the decoding of a tab list is built on these
//! statements and on nothing else about JSON.

use vstd::prelude::*;

verus! {

/// A JSON document as `serde_json` holds it. The library never looks inside one; it
/// asks the functions below.
#[verifier::external_type_specification]
#[verifier::external_body]
pub struct ExJsonValue(serde_json::Value);

/// The error of `serde_json::from_str`. The library only notes that there was one.
#[verifier::external_type_specification]
#[verifier::external_body]
pub struct ExJsonError(serde_json::Error);

/// The document that `serde_json::from_str` reads from a text, if it reads one.
pub uninterp spec fn json_parse(text: Seq<char>) -> Option<serde_json::Value>;

/// The elements of a document that is an array, as `serde_json::Value::as_array` gives them.
pub uninterp spec fn json_elements(value: serde_json::Value) -> Option<Seq<serde_json::Value>>;

/// The member of a document that is an object under a key, as `serde_json::Value::get`
/// gives it for a string key.
pub uninterp spec fn json_member(value: serde_json::Value, key: Seq<char>) -> Option<
    serde_json::Value,
>;

/// The text of a document that is a string, as `serde_json::Value::as_str` gives it.
pub uninterp spec fn json_string(value: serde_json::Value) -> Option<Seq<char>>;

/// Calls `serde_json::from_str` for a `serde_json::Value`.
///
/// Claimed: whether a text is read, and the document read from it, depend on the text
/// alone.
#[verifier::external_body]
pub(crate) fn parse_json(text: &str) -> (r: Result<serde_json::Value, serde_json::Error>)
    ensures
        r is Ok <==> json_parse(text@) is Some,
        r matches Ok(value) ==> json_parse(text@) == Some(value),
{
    serde_json::from_str::<serde_json::Value>(text)
}

/// Calls `serde_json::Value::get` with a string key.
///
/// Claimed: whether a member is found, and which, depend on the document and the key
/// alone.
#[verifier::external_body]
pub(crate) fn member<'a>(value: &'a serde_json::Value, key: &str) -> (r: Option<
    &'a serde_json::Value,
>)
    ensures
        r is Some <==> json_member(*value, key@) is Some,
        r matches Some(found) ==> json_member(*value, key@) == Some(*found),
{
    value.get(key)
}

/// `serde_json::Value::as_array`: the vector of an array, `None` for any other document.
///
/// Claimed: whether a vector is returned, and its elements, depend on the document alone.
pub assume_specification[ serde_json::Value::as_array ](value: &serde_json::Value) -> (r: Option<
    &Vec<serde_json::Value>,
>)
    ensures
        r is Some <==> json_elements(*value) is Some,
        r matches Some(items) ==> json_elements(*value) == Some(items@),
;

/// `serde_json::Value::as_str`: the text of a string, `None` for any other document.
///
/// Claimed: whether a text is returned, and its characters, depend on the document alone.
pub assume_specification[ serde_json::Value::as_str ](value: &serde_json::Value) -> (r: Option<
    &str,
>)
    ensures
        r is Some <==> json_string(*value) is Some,
        r matches Some(text) ==> json_string(*value) == Some(text@),
;

} // verus!
