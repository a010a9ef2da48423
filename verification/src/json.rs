//! Trusted bindings to serde_json, the JSON codec the adapter relies on.
//!
//! The adapter never looks inside a parsed JSON value: it only carries the
//! value through to its caller. The parsed value is therefore named, not
//! described: `json_of` stands for the outcome of parsing a text, and the
//! wrapper below ties serde_json's answer to that name.

use vstd::prelude::*;

verus! {

#[verifier::external_type_specification]
#[verifier::external_body]
pub struct ExValue(serde_json::Value);

#[verifier::external_type_specification]
#[verifier::external_body]
pub struct ExError(serde_json::Error);

/// The outcome of parsing a text as one JSON document: `None` when the text
/// is not well-formed JSON, otherwise the parsed value. The outcome depends
/// on the text alone.
pub uninterp spec fn json_of(s: Seq<char>) -> Option<serde_json::Value>;

/// Relies on `serde_json::from_str::<serde_json::Value>`: parsing succeeds
/// exactly when the text is one well-formed JSON document, and the parsed
/// value is a function of the text alone.
#[verifier::external_body]
pub(crate) fn parse_json(s: &str) -> (r: Result<serde_json::Value, serde_json::Error>)
    ensures
        r is Ok <==> json_of(s@) is Some,
        (r matches Ok(v) ==> json_of(s@) == Some(v)),
{
    serde_json::from_str(s)
}

/// Relies on `serde_json::Error`'s `Display` implementation for a
/// human-readable diagnostic; nothing is claimed of its content.
#[verifier::external_body]
pub(crate) fn json_error_message(e: &serde_json::Error) -> String {
    format!("{}", e)
}

} // verus!
