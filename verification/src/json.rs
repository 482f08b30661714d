//! The wire format of text: JSON, as `serde_json` writes and reads it.
//!
//! Requests and responses travel as JSON documents. This module encodes and
//! decodes the one payload type that the crate itself can hold, a string;
//! callers with other payload types bring their own encoded bytes.

use vstd::prelude::*;

use crate::error::ErrorKind;

verus! {

#[verifier::external_type_specification]
#[verifier::external_body]
pub struct ExJsonError(serde_json::Error);

/// The bytes that `serde_json::to_vec` returns for the string `text`, or
/// `None` where it returns an error.
pub uninterp spec fn json_of_text(text: Seq<char>) -> Option<Seq<u8>>;

/// The string that `serde_json::from_slice` reads from `bytes` when asked for
/// a `String`, or `None` where it returns an error.
pub uninterp spec fn text_of_json(bytes: Seq<u8>) -> Option<Seq<char>>;

/// Calls `serde_json::to_vec` on a string.
/// Trusted: the result is the one that `json_of_text` names.
#[verifier::external_body]
fn to_json(text: &str) -> (r: Result<Vec<u8>, serde_json::Error>)
    ensures
        match r {
            Ok(bytes) => json_of_text(text@) == Some(bytes@),
            Err(_) => json_of_text(text@) is None,
        },
{
    serde_json::to_vec(text)
}

/// Calls `serde_json::from_slice` for a `String`.
/// Trusted: the result is the one that `text_of_json` names.
#[verifier::external_body]
fn from_json(bytes: &[u8]) -> (r: Result<String, serde_json::Error>)
    ensures
        match r {
            Ok(text) => text_of_json(bytes@) == Some(text@),
            Err(_) => text_of_json(bytes@) is None,
        },
{
    serde_json::from_slice::<String>(bytes)
}

/// Encodes a string for the wire. Fails with `SerializationError` exactly
/// when the format has no encoding of it.
pub fn encode_text(text: &str) -> (r: Result<Vec<u8>, ErrorKind>)
    ensures
        match r {
            Ok(bytes) => json_of_text(text@) == Some(bytes@),
            Err(e) => e == ErrorKind::SerializationError && json_of_text(text@) is None,
        },
{
    match to_json(text) {
        Ok(bytes) => Ok(bytes),
        Err(_) => Err(ErrorKind::SerializationError),
    }
}

/// Decodes a string from the wire. Fails with `DeserializationError` exactly
/// when `bytes` is not the encoding of a string.
pub fn decode_text(bytes: &[u8]) -> (r: Result<String, ErrorKind>)
    ensures
        match r {
            Ok(text) => text_of_json(bytes@) == Some(text@),
            Err(e) => e == ErrorKind::DeserializationError && text_of_json(bytes@) is None,
        },
{
    match from_json(bytes) {
        Ok(text) => Ok(text),
        Err(_) => Err(ErrorKind::DeserializationError),
    }
}

} // verus!
