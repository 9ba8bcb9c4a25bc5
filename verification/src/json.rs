//! The boundary to the JSON crate: the opaque value type and the few
//! accessors the gateway engine needs. Each accessor's result is a function
//! of its arguments alone, so it is given a name, and the verified code
//! built on the accessors is exact in terms of those names; frame payloads
//! themselves stay opaque.

use vstd::prelude::*;
use crate::error::ClientError;

verus! {

#[verifier::external_type_specification]
#[verifier::external_body]
pub struct ExValue(serde_json::Value);

/// Whether a text parses as JSON; `serde_json::from_str` is deterministic
/// in the text, so this is a function of the characters alone.
pub uninterp spec fn spec_json_ok(s: Seq<char>) -> bool;

/// What `serde_json::Value::get` returns for a key: the value under it when
/// the receiver is an object that has the key, nothing otherwise.
pub uninterp spec fn spec_json_field(v: serde_json::Value, key: Seq<char>) -> Option<
    serde_json::Value,
>;

/// What `serde_json::Value::as_u64` returns: the number when the value is
/// an unsigned integer that fits, nothing otherwise.
pub uninterp spec fn spec_json_u64(v: serde_json::Value) -> Option<u64>;

/// What `serde_json::Value::as_str` returns: the text when the value is a
/// JSON string, nothing otherwise.
pub uninterp spec fn spec_json_str(v: serde_json::Value) -> Option<Seq<char>>;

/// What `serde_json::Value::as_bool` returns: the value when it is a JSON
/// boolean, nothing otherwise.
pub uninterp spec fn spec_json_bool(v: serde_json::Value) -> Option<bool>;

/// Parses a text as JSON.
///
/// Relies on `serde_json::from_str`: returns the parsed document, or an
/// error when the text is not valid JSON; the outcome depends on the text
/// alone. A failure is reported as this library's JSON error.
#[verifier::external_body]
pub fn parse_json(text: &str) -> (r: Result<serde_json::Value, ClientError>)
    ensures
        r is Ok <==> spec_json_ok(text@),
        r matches Err(e) ==> e is Json,
{
    match serde_json::from_str::<serde_json::Value>(text) {
        Ok(v) => Ok(v),
        Err(e) => Err(ClientError::Json(e.to_string())),
    }
}

/// Reads one field of a JSON object, owned by the caller.
///
/// Relies on `serde_json::Value::get`: the value under `key` when `v` is an
/// object that has that key, nothing otherwise; the field is cloned so the
/// caller owns it.
#[verifier::external_body]
pub fn json_field(v: &serde_json::Value, key: &str) -> (r: Option<serde_json::Value>)
    ensures
        r == spec_json_field(*v, key@),
{
    v.get(key).cloned()
}

/// Reads a JSON value as an unsigned integer.
///
/// Relies on `serde_json::Value::as_u64`: the number when `v` is an integer
/// that fits in a `u64`, nothing otherwise.
#[verifier::external_body]
pub fn json_as_u64(v: &serde_json::Value) -> (r: Option<u64>)
    ensures
        r == spec_json_u64(*v),
{
    v.as_u64()
}

/// Reads a JSON value as a string, owned by the caller.
///
/// Relies on `serde_json::Value::as_str`: the text when `v` is a JSON
/// string, nothing otherwise.
#[verifier::external_body]
pub fn json_as_str(v: &serde_json::Value) -> (r: Option<String>)
    ensures
        r is Some <==> spec_json_str(*v) is Some,
        r matches Some(s) ==> spec_json_str(*v) == Some(s@),
{
    v.as_str().map(|s| s.to_string())
}

/// Reads a JSON value as a boolean.
///
/// Relies on `serde_json::Value::as_bool`: the value when `v` is a JSON
/// boolean, nothing otherwise.
#[verifier::external_body]
pub fn json_as_bool(v: &serde_json::Value) -> (r: Option<bool>)
    ensures
        r == spec_json_bool(*v),
{
    v.as_bool()
}

} // verus!
