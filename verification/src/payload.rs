//! Request bodies: nothing, a raw text sent as it is, or a JSON document
//! that is serialized when the request is built.

use vstd::prelude::*;
use vstd::string::*;
use crate::error::RelayError;
use crate::error::RelayErrorView;

verus! {

/// A JSON document. The relay carries it from the description to the
/// serializer and never looks inside.
#[verifier::external_type_specification]
#[verifier::external_body]
pub struct ExJsonValue(serde_json::Value);

/// The body of the call to make.
#[derive(Debug)]
pub enum Payload {
    /// No body.
    Absent,
    /// A raw text, sent verbatim.
    Text(String),
    /// A structured document, sent as its JSON serialization.
    Json(serde_json::Value),
}

/// The mathematical form of a `Payload`.
pub enum PayloadView {
    Absent,
    Text(Seq<char>),
    Json(serde_json::Value),
}

impl View for Payload {
    type V = PayloadView;

    open spec fn view(&self) -> PayloadView {
        match self {
            Payload::Absent => PayloadView::Absent,
            Payload::Text(text) => PayloadView::Text(text@),
            Payload::Json(document) => PayloadView::Json(*document),
        }
    }
}

/// What serializing a JSON document yields: its bytes, or the serializer's
/// description of why it failed.
pub uninterp spec fn json_encoding(document: serde_json::Value) -> Result<Seq<u8>, Seq<char>>;

/// The bytes to send for a payload: none for an absent body, the UTF-8
/// bytes of a raw text, the serialization of a document; or the cause for
/// which a document cannot be serialized.
pub open spec fn wire_body(payload: PayloadView) -> Result<Option<Seq<u8>>, Seq<char>> {
    match payload {
        PayloadView::Absent => Ok(None),
        PayloadView::Text(text) => Ok(Some(vstd::utf8::encode_utf8(text))),
        PayloadView::Json(document) => body_of(json_encoding(document)),
    }
}

/// The body that a serializer's result stands for.
pub open spec fn body_of(encoded: Result<Seq<u8>, Seq<char>>) -> Result<
    Option<Seq<u8>>,
    Seq<char>,
> {
    match encoded {
        Ok(bytes) => Ok(Some(bytes)),
        Err(cause) => Err(cause),
    }
}

/// The mathematical form of a serialized body or its failure.
pub open spec fn body_view(body: Result<Option<Vec<u8>>, RelayError>) -> Result<
    Option<Seq<u8>>,
    RelayErrorView,
> {
    match body {
        Ok(Some(bytes)) => Ok(Some(bytes@)),
        Ok(None) => Ok(None),
        Err(error) => Err(error@),
    }
}

/// The failure reported for a body that cannot be serialized.
pub open spec fn as_serialization_error(body: Result<Option<Seq<u8>>, Seq<char>>) -> Result<
    Option<Seq<u8>>,
    RelayErrorView,
> {
    match body {
        Ok(bytes) => Ok(bytes),
        Err(cause) => Err(RelayErrorView::BodySerializationError(cause)),
    }
}

/// Calls `serde_json::to_vec` and, on failure, takes the error's
/// description. The contract only names the result: bytes or cause are a
/// function of the document alone.
#[verifier::external_body]
pub(crate) fn encode_json(document: &serde_json::Value) -> (encoded: Result<Vec<u8>, String>)
    ensures
        encoded_view(encoded) == json_encoding(*document),
{
    match serde_json::to_vec(document) {
        Ok(bytes) => Ok(bytes),
        Err(error) => Err(format!("{}", error)),
    }
}

/// The mathematical form of a serializer's result.
pub open spec fn encoded_view(encoded: Result<Vec<u8>, String>) -> Result<Seq<u8>, Seq<char>> {
    match encoded {
        Ok(bytes) => Ok(bytes@),
        Err(cause) => Err(cause@),
    }
}

/// Turns a serializer's result into the body to send, or into the failure
/// that carries the serializer's cause.
pub fn body_from_encoding(encoded: Result<Vec<u8>, String>) -> (body: Result<
    Option<Vec<u8>>,
    RelayError,
>)
    ensures
        body_view(body) == as_serialization_error(body_of(encoded_view(encoded))),
{
    match encoded {
        Ok(bytes) => Ok(Some(bytes)),
        Err(cause) => Err(RelayError::BodySerializationError(cause)),
    }
}

impl Payload {
    /// The bytes to send for this payload. Only a JSON document can fail,
    /// and it fails with `BodySerializationError`.
    pub fn serialize(&self) -> (body: Result<Option<Vec<u8>>, RelayError>)
        ensures
            body_view(body) == as_serialization_error(wire_body(self@)),
    {
        match self {
            Payload::Absent => Ok(None),
            Payload::Text(text) => Ok(Some(text.as_str().as_bytes_vec())),
            Payload::Json(document) => body_from_encoding(encode_json(document)),
        }
    }
}

} // verus!
