//! JSON documents, read with `serde_json`.
//!
//! Parsing is the outside crate's work and is not verified here. This module
//! gives its results names, so that the verified code that reads a document
//! can say exactly what it returns for each result.

use vstd::prelude::*;

verus! {

/// `serde_json::Value`: a parsed document. Nothing of it is visible here but
/// what [`json_strings`] names.
#[verifier::external_type_specification]
#[verifier::external_body]
pub struct ExJsonValue(serde_json::Value);

/// `serde_json::Error`: why a text did not parse. Nothing of it is visible
/// here but what [`json_error_text`] names.
#[verifier::external_type_specification]
#[verifier::external_body]
pub struct ExJsonError(serde_json::Error);

/// The string members of a JSON value: for an object, each key whose value is
/// a JSON string, with that string. Any other value has none.
pub uninterp spec fn json_strings(value: serde_json::Value) -> Map<Seq<char>, Seq<char>>;

/// The message of a `serde_json` error, as its `Display` impl writes it.
pub uninterp spec fn json_error_text(error: serde_json::Error) -> Seq<char>;

/// What `serde_json::from_str` makes of a text: the string members of the
/// value that the text spells, or the message of the error.
pub uninterp spec fn json_parse(text: Seq<char>) -> Result<Map<Seq<char>, Seq<char>>, Seq<char>>;

/// The member `key` of a set of string members, if there is one.
pub open spec fn member(members: Map<Seq<char>, Seq<char>>, key: Seq<char>) -> Option<Seq<char>> {
    if members.contains_key(key) {
        Some(members[key])
    } else {
        None
    }
}

/// Calls `serde_json::from_str` for a `serde_json::Value`. Trusted: the result
/// depends on the text alone, and `json_parse` is its name.
#[verifier::external_body]
pub(crate) fn parse_value(text: &str) -> (r: Result<serde_json::Value, serde_json::Error>)
    ensures
        match r {
            Ok(value) => json_parse(text@) == Ok::<Map<Seq<char>, Seq<char>>, Seq<char>>(
                json_strings(value),
            ),
            Err(error) => json_parse(text@) == Err::<Map<Seq<char>, Seq<char>>, Seq<char>>(
                json_error_text(error),
            ),
        },
{
    serde_json::from_str::<serde_json::Value>(text)
}

/// Calls `serde_json::Value::get` with a key. Trusted: the result is the
/// member's string where the value is an object that has the key with a
/// string value, and `None` in every other case.
#[verifier::external_body]
pub(crate) fn string_member(value: &serde_json::Value, key: &str) -> (r: Option<String>)
    ensures
        crate::text::opt_text(r) == member(json_strings(*value), key@),
{
    match value.get(key) {
        Some(serde_json::Value::String(s)) => Some(s.clone()),
        _ => None,
    }
}

/// Calls `to_string` on a `serde_json::Error`. Trusted: the result is the
/// error's message.
#[verifier::external_body]
pub(crate) fn error_text(error: &serde_json::Error) -> (r: String)
    ensures
        r@ == json_error_text(*error),
{
    error.to_string()
}

} // verus!
