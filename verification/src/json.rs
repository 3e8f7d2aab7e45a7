//! JSON text, as far as token payloads need it.

use vstd::prelude::*;

verus! {

/// The JSON string literal for `s`: quoted, with escapes where JSON needs
/// them.
pub uninterp spec fn json_quoted(s: Seq<char>) -> Seq<char>;

/// The string that the JSON object `text` holds under `key`; `None` where
/// `text` is not JSON, not an object, has no such member, or holds something
/// other than a string there.
pub uninterp spec fn json_string_member(text: Seq<u8>, key: Seq<char>) -> Option<Seq<char>>;

/// The non-negative integer that the JSON object `text` holds under `key`;
/// `None` where `text` is not JSON, not an object, has no such member, or
/// holds something other than an integer between 0 and 2^64 - 1 there.
pub uninterp spec fn json_integer_member(text: Seq<u8>, key: Seq<char>) -> Option<u64>;

/// `serde_json::to_string` on a string slice. Serializing a string cannot
/// fail; the result is its JSON literal.
#[verifier::external_body]
pub(crate) fn quote(s: &str) -> (r: Option<String>)
    ensures
        r is Some,
        r->0@ == json_quoted(s@),
{
    serde_json::to_string(s).ok()
}

/// `serde_json::from_slice` into a `serde_json::Value`, then `Value::get`
/// and `Value::as_str`: the string member `key` of the object `text`.
#[verifier::external_body]
pub(crate) fn string_member(text: &[u8], key: &str) -> (r: Option<String>)
    ensures
        match r {
            Some(s) => json_string_member(text@, key@) == Some(s@),
            None => json_string_member(text@, key@) is None,
        },
{
    let document: serde_json::Value = serde_json::from_slice(text).ok()?;
    Some(document.get(key)?.as_str()?.to_string())
}

/// `serde_json::from_slice` into a `serde_json::Value`, then `Value::get`
/// and `Value::as_u64`: the integer member `key` of the object `text`.
#[verifier::external_body]
pub(crate) fn integer_member(text: &[u8], key: &str) -> (r: Option<u64>)
    ensures
        r == json_integer_member(text@, key@),
{
    let document: serde_json::Value = serde_json::from_slice(text).ok()?;
    document.get(key)?.as_u64()
}

} // verus!
