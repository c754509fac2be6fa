//! The value codec: structured values to and from their compact,
//! self-describing binary form.
//!
//! Values are `serde_json::Value`s; the binary form is MessagePack as written
//! and read by `rmp_serde`. Both directions are outside code. What this module
//! proves is how their outcomes are handed on: which error comes out when, and
//! that a success carries exactly the bytes (or the value) the outside call
//! produced.
use vstd::prelude::*;

verus! {

#[verifier::external_type_specification]
#[verifier::external_body]
pub struct ExJsonValue(serde_json::Value);

#[verifier::external_type_specification]
#[verifier::external_body]
pub struct ExJsonError(serde_json::Error);

/// What `rmp_serde::encode::to_vec` gives for a JSON value: the bytes that it
/// writes, or the message of the error that it reports.
pub uninterp spec fn wire_form(value: serde_json::Value) -> Result<Seq<u8>, Seq<char>>;

/// What `rmp_serde::decode::from_slice` gives for a byte string: the JSON
/// value that it reads from the front of it, or the message of the error that
/// it reports.
pub uninterp spec fn wire_value(bytes: Seq<u8>) -> Result<serde_json::Value, Seq<char>>;

/// A value could not be written in binary form.
#[derive(Debug, Clone, PartialEq, Eq)]
pub struct EncodeError {
    /// What the encoder reported.
    pub message: String,
}

/// Bytes did not hold a well-formed value: the tag stream was truncated,
/// corrupt, or of an unexpected shape.
#[derive(Debug, Clone, PartialEq, Eq)]
pub struct DecodeError {
    /// What the decoder reported.
    pub message: String,
}

/// Whether `r` hands on what the encoder gave: its bytes, or an error with its
/// message.
pub open spec fn encoded(r: Result<Vec<u8>, EncodeError>, value: serde_json::Value) -> bool {
    match wire_form(value) {
        Ok(bytes) => r matches Ok(out) && out@ == bytes,
        Err(message) => r matches Err(error) && error.message@ == message,
    }
}

/// Whether `r` hands on what the decoder gave: its value, or an error with its
/// message.
pub open spec fn decoded(r: Result<serde_json::Value, DecodeError>, bytes: Seq<u8>) -> bool {
    match wire_value(bytes) {
        Ok(value) => r == Ok::<serde_json::Value, DecodeError>(value),
        Err(message) => r matches Err(error) && error.message@ == message,
    }
}

/// Calls `rmp_serde::encode::to_vec` on a JSON value and writes an error out
/// as its message. The result is a function of the value alone; it is named
/// [`wire_form`].
#[verifier::external_body]
fn to_wire(value: &serde_json::Value) -> (r: Result<Vec<u8>, String>)
    ensures
        match wire_form(*value) {
            Ok(bytes) => r matches Ok(out) && out@ == bytes,
            Err(message) => r matches Err(text) && text@ == message,
        },
{
    rmp_serde::encode::to_vec(value).map_err(|error| error.to_string())
}

/// Calls `rmp_serde::decode::from_slice` for a JSON value and writes an error
/// out as its message. The result is a function of the bytes alone; it is
/// named [`wire_value`].
#[verifier::external_body]
fn from_wire(bytes: &[u8]) -> (r: Result<serde_json::Value, String>)
    ensures
        match wire_value(bytes@) {
            Ok(value) => r == Ok::<serde_json::Value, String>(value),
            Err(message) => r matches Err(text) && text@ == message,
        },
{
    rmp_serde::decode::from_slice::<serde_json::Value>(bytes).map_err(|error| error.to_string())
}

/// Encodes a value. Succeeds exactly where the encoder does, with its bytes;
/// fails with the encoder's message.
pub fn encode_value(value: &serde_json::Value) -> (r: Result<Vec<u8>, EncodeError>)
    ensures
        encoded(r, *value),
{
    match to_wire(value) {
        Ok(bytes) => Ok(bytes),
        Err(message) => Err(EncodeError { message }),
    }
}

/// Decodes a value. Succeeds exactly where the decoder does, with its value;
/// fails with the decoder's message.
pub fn decode_value(bytes: &[u8]) -> (r: Result<serde_json::Value, DecodeError>)
    ensures
        decoded(r, bytes@),
{
    match from_wire(bytes) {
        Ok(value) => Ok(value),
        Err(message) => Err(DecodeError { message }),
    }
}

/// The JSON value that `serde_json::Value::from` makes of a text: the string
/// value that holds it.
pub uninterp spec fn string_value(text: Seq<char>) -> serde_json::Value;

/// Calls `serde_json::Value::from` on a text. The result is a function of the
/// text alone; it is named [`string_value`].
#[verifier::external_body]
pub(crate) fn json_string(text: &str) -> (value: serde_json::Value)
    ensures
        value == string_value(text@),
{
    serde_json::Value::from(text)
}

/// The JSON value that `serde_json::from_str` reads from a text, or `None`
/// where it reports an error.
pub uninterp spec fn parsed_json(text: Seq<char>) -> Option<serde_json::Value>;

/// Calls `serde_json::from_str` for a JSON value. The result is a function of
/// the text alone; it is named [`parsed_json`].
#[verifier::external_body]
pub(crate) fn json_from_text(text: &str) -> (r: Result<serde_json::Value, serde_json::Error>)
    ensures
        r is Ok <==> parsed_json(text@) is Some,
        r matches Ok(value) ==> Some(value) == parsed_json(text@),
{
    serde_json::from_str::<serde_json::Value>(text)
}

} // verus!
