//! Encodings of stored values: CBOR, which memory databases and transaction
//! snapshots store, and JSON.
use vstd::prelude::*;
use crate::error::{Error, Result};
use serde_json::Error as JsonError;

verus! {

#[verifier::external_type_specification]
#[verifier::external_body]
pub struct ExDecodeError(minicbor_serde::error::DecodeError);

#[verifier::external_type_specification]
#[verifier::external_body]
#[verifier::reject_recursive_types(E)]
pub struct ExEncodeError<E>(minicbor_serde::error::EncodeError<E>);

#[verifier::external_type_specification]
#[verifier::external_body]
pub struct ExJsonError(JsonError);

/// Relies on `serde_json::to_vec`: `data` as one JSON document.
#[verifier::external_body]
fn json_to_vec<O: serde_core::Serialize>(data: &O) -> (r: core::result::Result<Vec<u8>, JsonError>) {
    serde_json::to_vec(data)
}

/// Relies on `serde_json::from_slice`: the value that the JSON document in
/// `bytes` describes, or why it describes none.
#[verifier::external_body]
fn json_from_slice<O: serde_core::de::DeserializeOwned>(bytes: &[u8]) -> (r: core::result::Result<O, JsonError>) {
    serde_json::from_slice(bytes)
}

/// Relies on the `Display` of `serde_json::Error`: its message.
#[verifier::external_body]
fn json_error_message(e: &JsonError) -> String {
    e.to_string()
}

/// Relies on `minicbor_serde::to_vec`: `data` as one CBOR document.
#[verifier::external_body]
fn cbor_to_vec<O: serde_core::Serialize>(data: &O) -> (r: core::result::Result<
    Vec<u8>,
    minicbor_serde::error::EncodeError<core::convert::Infallible>,
>) {
    minicbor_serde::to_vec(data)
}

/// Relies on `minicbor_serde::from_slice`: the value that the CBOR document in
/// `bytes` describes, or why it describes none.
#[verifier::external_body]
fn cbor_from_slice<O: serde_core::de::DeserializeOwned>(bytes: &[u8]) -> (r: core::result::Result<
    O,
    minicbor_serde::error::DecodeError,
>) {
    minicbor_serde::from_slice(bytes)
}

/// Relies on the `Display` of `minicbor_serde::error::EncodeError`: its message.
#[verifier::external_body]
fn encode_error_message(e: &minicbor_serde::error::EncodeError<core::convert::Infallible>) -> String {
    e.to_string()
}

/// Relies on the `Display` of `minicbor_serde::error::DecodeError`: its message.
#[verifier::external_body]
fn decode_error_message(e: &minicbor_serde::error::DecodeError) -> String {
    e.to_string()
}

/// Encodes `data` as CBOR.
pub fn cbor_encode<O: serde_core::Serialize>(data: &O) -> (r: Result<Vec<u8>>)
    ensures
        r matches Err(e) ==> e is SerializationFailure,
{
    match cbor_to_vec(data) {
        Ok(bytes) => Ok(bytes),
        Err(e) => Err(Error::SerializationFailure(encode_error_message(&e))),
    }
}

/// Decodes a CBOR document.
pub fn cbor_decode<O: serde_core::de::DeserializeOwned>(bytes: &[u8]) -> (r: Result<O>)
    ensures
        r matches Err(e) ==> e is DeserializationFailure,
{
    match cbor_from_slice(bytes) {
        Ok(v) => Ok(v),
        Err(e) => Err(Error::DeserializationFailure(decode_error_message(&e))),
    }
}

/// Encodes `data` as JSON.
pub fn json_encode<O: serde_core::Serialize>(data: &O) -> (r: Result<Vec<u8>>)
    ensures
        r matches Err(e) ==> e is SerializationFailure,
{
    match json_to_vec(data) {
        Ok(bytes) => Ok(bytes),
        Err(e) => Err(Error::SerializationFailure(json_error_message(&e))),
    }
}

/// Decodes a JSON document.
pub fn json_decode<O: serde_core::de::DeserializeOwned>(bytes: &[u8]) -> (r: Result<O>)
    ensures
        r matches Err(e) ==> e is DeserializationFailure,
{
    match json_from_slice(bytes) {
        Ok(v) => Ok(v),
        Err(e) => Err(Error::DeserializationFailure(json_error_message(&e))),
    }
}

} // verus!
