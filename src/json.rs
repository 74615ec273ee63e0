//! JSON at the edge of the service: reading string members out of a request
//! body, quoting strings, and framing post objects and arrays.
use vstd::prelude::*;

verus! {

#[verifier::external_type_specification]
#[verifier::external_body]
pub struct ExJsonError(serde_json::Error);

/// Whether the bytes are one well-formed JSON document.
pub uninterp spec fn json_parses(body: Seq<u8>) -> bool;

/// The member `key` of the JSON document `body` where the document is an
/// object and that member is a string; `None` otherwise.
pub uninterp spec fn json_member_text(body: Seq<u8>, key: Seq<char>) -> Option<Seq<char>>;

/// The JSON string literal (quotes and escapes) for a text, where the
/// serializer produces one.
pub uninterp spec fn json_literal(s: Seq<char>) -> Option<Seq<char>>;

/// View of an optional owned string.
pub open spec fn opt_view(o: Option<String>) -> Option<Seq<char>> {
    match o {
        Some(s) => Some(s@),
        None => None,
    }
}

/// Relies on serde_json::from_slice into a serde_json::Value, on Value's
/// index by key (Null for a missing member or a non-object) and on
/// Value::as_str (Some for a string only): the document is parsed, and the
/// member is read, as a function of the bytes and the key alone.
#[verifier::external_body]
pub(crate) fn string_member(body: &[u8], key: &str) -> (r: Result<Option<String>, serde_json::Error>)
    ensures
        r.is_ok() <==> json_parses(body@),
        r matches Ok(m) ==> opt_view(m) == json_member_text(body@, key@),
{
    match serde_json::from_slice::<serde_json::Value>(body) {
        Ok(v) => Ok(v[key].as_str().map(String::from)),
        Err(e) => Err(e),
    }
}

/// Relies on serde_json::to_string on a `str`: the quoted and escaped
/// literal, as a function of the text alone.
#[verifier::external_body]
pub(crate) fn quote(s: &str) -> (r: Result<String, serde_json::Error>)
    ensures
        r.is_ok() <==> json_literal(s@) is Some,
        r matches Ok(t) ==> Some(t@) == json_literal(s@),
{
    serde_json::to_string(s)
}

} // verus!
