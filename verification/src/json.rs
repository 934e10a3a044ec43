//! The JSON values of the wire protocol, handled by `serde_json`.

use vstd::prelude::*;

verus! {

/// `serde_json::Value`, carried through the library opaquely.
#[verifier::external_type_specification]
#[verifier::external_body]
pub struct ExJsonValue(serde_json::Value);

/// Whether `text` is one well-formed JSON document (as `serde_json` reads
/// it).
pub uninterp spec fn json_text_parses(text: Seq<char>) -> bool;

/// The value `serde_json` reads from `text`, where it reads one.
pub uninterp spec fn json_value_of(text: Seq<char>) -> serde_json::Value;

/// The display text of the error `serde_json` reports for `text`, where it
/// reports one.
pub uninterp spec fn json_error_text(text: Seq<char>) -> Seq<char>;

/// The text of the string member `key` of `value`: `None` when `value` is
/// not an object, lacks `key`, or holds a non-string there.
pub uninterp spec fn json_string_member(value: serde_json::Value, key: Seq<char>) -> Option<
    Seq<char>,
>;

/// The pretty-printed JSON bytes of `value` (as `serde_json::to_vec_pretty`
/// writes them).
pub uninterp spec fn json_pretty_bytes(value: serde_json::Value) -> Seq<u8>;

/// The JSON string holding `text`.
pub uninterp spec fn json_string_of(text: Seq<char>) -> serde_json::Value;

/// Calls `serde_json::from_str::<serde_json::Value>`. Whether it succeeds,
/// the value read and the error's display text are each a function of the
/// text, named above.
#[verifier::external_body]
pub(crate) fn parse_json(text: &str) -> (r: Result<serde_json::Value, String>)
    ensures
        r is Ok <==> json_text_parses(text@),
        r matches Ok(v) ==> v == json_value_of(text@),
        r matches Err(d) ==> d@ == json_error_text(text@),
{
    match serde_json::from_str::<serde_json::Value>(text) {
        Ok(value) => Ok(value),
        Err(err) => Err(err.to_string()),
    }
}

/// Calls `serde_json::Value::get` with a string key and then
/// `serde_json::Value::as_str` on the member, owning the text.
#[verifier::external_body]
pub(crate) fn json_string_member_of(value: &serde_json::Value, key: &str) -> (r: Option<String>)
    ensures
        match r {
            Some(s) => json_string_member(*value, key@) == Some(s@),
            None => json_string_member(*value, key@) is None,
        },
{
    value.get(key)?.as_str().map(|s| s.to_owned())
}

/// Calls `serde_json::Value::is_null`: true exactly for `Value::Null`, the
/// value that the text `null` reads as.
#[verifier::external_body]
pub(crate) fn json_is_null(value: &serde_json::Value) -> (r: bool)
    ensures
        r <==> *value == json_value_of("null"@),
{
    value.is_null()
}

/// Calls `<serde_json::Value as Clone>::clone`, which copies the value
/// variant by variant: the copy equals the original.
#[verifier::external_body]
pub(crate) fn json_clone(value: &serde_json::Value) -> (r: serde_json::Value)
    ensures
        r == *value,
{
    value.clone()
}

/// Builds the JSON string `text` (`serde_json::Value::String`).
#[verifier::external_body]
pub(crate) fn json_string(text: &str) -> (r: serde_json::Value)
    ensures
        r == json_string_of(text@),
{
    serde_json::Value::String(text.to_owned())
}

/// Builds `serde_json::Value::Null`, the value that the text `null` reads
/// as.
#[verifier::external_body]
pub(crate) fn json_null() -> (r: serde_json::Value)
    ensures
        r == json_value_of("null"@),
{
    serde_json::Value::Null
}

/// Calls `serde_json::to_vec_pretty` on a value. Serializing a `Value` does
/// not fail: its object keys are strings, its numbers are finite and the
/// writer is a `Vec`. The bytes are a function of the value, named above.
#[verifier::external_body]
pub(crate) fn json_to_vec_pretty(value: &serde_json::Value) -> (r: Result<Vec<u8>, String>)
    ensures
        r is Ok,
        r matches Ok(b) ==> b@ == json_pretty_bytes(*value),
{
    match serde_json::to_vec_pretty(value) {
        Ok(bytes) => Ok(bytes),
        Err(err) => Err(err.to_string()),
    }
}

} // verus!
