//! Decoding accumulated response bodies.
//!
//! The daemon answers with JSON. The accumulated body is parsed into a JSON
//! document once it is complete; a body that does not parse is reported with
//! the logical name of the requested type and the raw response text, lossily
//! converted to displayable form — the raw body is never silently dropped.

use vstd::prelude::*;

use crate::errors::Error;

verus! {

#[verifier::external_type_specification]
#[verifier::external_body]
pub struct ExJsonValue(serde_json::Value);

/// Whether a byte sequence parses as one JSON document.
pub uninterp spec fn json_value_parses(b: Seq<u8>) -> bool;

/// Relies on `serde_json::from_slice::<Value>`: whether bytes parse as a
/// JSON document depends on the bytes alone.
#[verifier::external_body]
fn json_from_bytes(b: &[u8]) -> (r: Option<serde_json::Value>)
    ensures
        r is Some <==> json_value_parses(b@),
{
    serde_json::from_slice::<serde_json::Value>(b).ok()
}

/// The displayable form of a byte sequence.
pub uninterp spec fn utf8_lossy_of(b: Seq<u8>) -> Seq<char>;

/// Relies on `String::from_utf8_lossy`: the result depends on the bytes
/// alone, and bytes that are valid UTF-8 — in particular, ASCII bytes — pass
/// through unchanged.
#[verifier::external_body]
fn utf8_lossy(b: &[u8]) -> (r: String)
    ensures
        r@ == utf8_lossy_of(b@),
        (forall|i: int| 0 <= i < b@.len() ==> b@[i] < 0x80) ==> r@ == Seq::new(
            b@.len(),
            |i: int| b@[i] as char,
        ),
{
    String::from_utf8_lossy(b).into_owned()
}

/// Parses an accumulated body as a JSON document. A body that does not
/// parse fails with a decode error carrying the requested type's name and
/// the raw response text.
pub fn decode_body(requested_type: &str, body: &Vec<u8>) -> (r: Result<serde_json::Value, Error>)
    ensures
        r is Ok <==> json_value_parses(body@),
        (r matches Err(e) ==> (e matches Error::Decode { requested_type: t, body_text } && t@
            == requested_type@ && body_text@ == utf8_lossy_of(body@))),
{
    match json_from_bytes(body.as_slice()) {
        Some(v) => Ok(v),
        None => Err(
            Error::Decode {
                requested_type: String::from_str(requested_type),
                body_text: utf8_lossy(body.as_slice()),
            },
        ),
    }
}

} // verus!
