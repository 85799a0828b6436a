//! Dynamic JSON values through serde_json, behind trusted contracts.
//!
//! `serde_json::Value` is opaque to the verifier, so what each accessor
//! returns is given a name: an uninterpreted spec function of the value (and
//! the parse, of the text) it depends on.  Parsing, field lookup, the string
//! and array readings and the pretty rendering are all deterministic in their
//! arguments, so the names are well defined; the contracts of the callers are
//! then stated exactly over these names.

use vstd::prelude::*;

verus! {

/// serde_json's dynamic JSON value, opaque to the verifier.
#[verifier::external_type_specification]
#[verifier::external_body]
pub struct ExValue(serde_json::Value);

/// serde_json's error type, opaque to the verifier.
#[verifier::external_type_specification]
#[verifier::external_body]
pub struct ExError(serde_json::Error);

/// Whether serde_json's parser accepts a string as a JSON document.  The
/// outcome depends on the text alone.
pub uninterp spec fn json_parses(s: Seq<char>) -> bool;

/// The JSON value that parsing a text yields; meaningful only on text the
/// parser accepts.
pub uninterp spec fn json_value_of(s: Seq<char>) -> serde_json::Value;

/// The parse error on text the parser rejects; meaningful only there.
pub uninterp spec fn json_parse_error_of(s: Seq<char>) -> serde_json::Error;

/// The human-readable description of a parse error.
pub uninterp spec fn json_error_text_of(e: serde_json::Error) -> Seq<char>;

/// The value a JSON object holds at a key, when the value is an object with
/// that key.
pub uninterp spec fn json_field_of(v: serde_json::Value, key: Seq<char>) -> Option<
    serde_json::Value,
>;

/// The string a JSON value holds, when it is a JSON string.
pub uninterp spec fn json_str_of(v: serde_json::Value) -> Option<Seq<char>>;

/// The elements a JSON value holds, when it is a JSON array.
pub uninterp spec fn json_items_of(v: serde_json::Value) -> Option<Seq<serde_json::Value>>;

/// The pretty-printed rendering of a JSON value.
pub uninterp spec fn json_pretty_of(v: serde_json::Value) -> Seq<char>;

/// Relies on `serde_json::from_str::<Value>`: parsing succeeds or fails, and
/// yields its value or its error, depending on the input text alone.
#[verifier::external_body]
pub fn parse_json(s: &str) -> (r: Result<serde_json::Value, serde_json::Error>)
    ensures
        r is Ok <==> json_parses(s@),
        r matches Ok(v) ==> v == json_value_of(s@),
        r matches Err(e) ==> e == json_parse_error_of(s@),
{
    serde_json::from_str(s)
}

/// Relies on `serde_json::Value::get` with a string key: the value at that
/// key, `None` when the value is not an object or has no such key.
#[verifier::external_body]
pub fn json_get<'a>(v: &'a serde_json::Value, key: &str) -> (r: Option<&'a serde_json::Value>)
    ensures
        match r {
            Some(w) => json_field_of(*v, key@) == Some(*w),
            None => json_field_of(*v, key@) is None,
        },
{
    v.get(key)
}

/// Relies on `serde_json::Value::as_str`: the held string, `Some` exactly
/// when the value is a JSON string.
#[verifier::external_body]
pub fn json_as_str<'a>(v: &'a serde_json::Value) -> (r: Option<&'a str>)
    ensures
        match r {
            Some(s) => json_str_of(*v) == Some(s@),
            None => json_str_of(*v) is None,
        },
{
    v.as_str()
}

/// Relies on `serde_json::Value::as_array`: the held elements, `Some` exactly
/// when the value is a JSON array.
#[verifier::external_body]
pub fn json_as_array<'a>(v: &'a serde_json::Value) -> (r: Option<&'a Vec<serde_json::Value>>)
    ensures
        match r {
            Some(a) => json_items_of(*v) == Some(a@),
            None => json_items_of(*v) is None,
        },
{
    v.as_array()
}

/// Relies on `serde_json::to_string_pretty` applied to a `Value`: renders the
/// value as pretty-printed JSON text.  It cannot fail on a `Value`: the
/// writer is a byte vector, object keys are strings, and the held numbers are
/// finite.
#[verifier::external_body]
pub fn json_pretty(v: &serde_json::Value) -> (r: Result<String, serde_json::Error>)
    ensures
        r is Ok,
        r matches Ok(p) ==> p@ == json_pretty_of(*v),
{
    serde_json::to_string_pretty(v)
}

/// Relies on `serde_json::Error`'s `Display` implementation for a
/// human-readable description of the failure.
#[verifier::external_body]
pub fn json_error_string(e: &serde_json::Error) -> (r: String)
    ensures
        r@ == json_error_text_of(*e),
{
    e.to_string()
}

} // verus!
