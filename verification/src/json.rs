//! JSON, as `serde_json` reads and writes it.
//!
//! Nothing here is proved: each contract states what `serde_json` does, and
//! the rest of the crate is verified against these statements.

use vstd::prelude::*;
use zed_extension_api::serde_json::Value;

verus! {

/// `serde_json::Value`, a JSON value of any shape. Its inside is not visible
/// to the verifier; what this crate reads of it goes through `json_strings`.
#[verifier::external_type_specification]
#[verifier::external_body]
pub struct ExValue(Value);

/// The strings found in a JSON value: each JSON Pointer (RFC 6901) that leads
/// to a string inside `value`, together with that string.
pub uninterp spec fn json_strings(value: Value) -> Map<Seq<char>, Seq<char>>;

/// The strings found in the JSON document that `bytes` spell, or `None`
/// where they spell no JSON document.
pub uninterp spec fn json_document(bytes: Seq<u8>) -> Option<Map<Seq<char>, Seq<char>>>;

/// `serde_json::from_slice` at type `Value`: parses a whole JSON document, and
/// fails on anything else (bad syntax, bytes that are not UTF-8, text after the
/// document, nesting deeper than its limit). The result depends on the bytes
/// alone.
#[verifier::external_body]
pub(crate) fn parse_document(bytes: &[u8]) -> (r: Option<Value>)
    ensures
        match r {
            Some(value) => json_document(bytes@) == Some(json_strings(value)),
            None => json_document(bytes@) is None,
        },
{
    zed_extension_api::serde_json::from_slice(bytes).ok()
}

/// `Value::pointer`, kept where it leads to a string: the string that the JSON
/// Pointer `pointer` finds in `value`, or `None` where it finds nothing or
/// something that is no string.
#[verifier::external_body]
pub(crate) fn string_at(value: &Value, pointer: &str) -> (r: Option<String>)
    ensures
        match r {
            Some(text) => json_strings(*value).contains_key(pointer@) && json_strings(
                *value,
            )[pointer@] == text@,
            None => !json_strings(*value).contains_key(pointer@),
        },
{
    match value.pointer(pointer) {
        Some(Value::String(text)) => Some(text.clone()),
        _ => None,
    }
}

/// `serde_json::to_string` on `Value::Null`: the serializer writes the four
/// characters `null` into a byte vector, which cannot fail.
#[verifier::external_body]
pub(crate) fn null_text() -> (r: Option<String>)
    ensures
        match r {
            Some(text) => text@ == "null"@,
            None => false,
        },
{
    zed_extension_api::serde_json::to_string(&Value::Null).ok()
}

} // verus!
