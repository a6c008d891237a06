//! The failures of a relay transaction, and the one place where each is
//! given its caller-facing HTTP status and message.

use vstd::prelude::*;
use vstd::string::*;

verus! {

/// A required field of the request description.
#[derive(Clone, Copy, Debug, PartialEq, Eq, Structural)]
pub enum Field {
    Url,
    Method,
}

/// The three families of failure.
#[derive(Clone, Copy, Debug, PartialEq, Eq, Structural)]
pub enum ErrorClass {
    /// The caller's description cannot be turned into a request.
    Validation,
    /// The call to the target did not produce a response.
    Transport,
    /// The target's response cannot be presented as text.
    Decode,
}

/// Why a relay transaction failed.
#[derive(Debug, PartialEq, Eq)]
pub enum RelayError {
    /// A required field is absent from the description.
    MissingField(Field),
    /// The target URL is not an absolute URI with scheme and host.
    InvalidUrl,
    /// The method is not one of the recognized verbs.
    InvalidMethod,
    /// The header with this name cannot be written as an HTTP header.
    InvalidHeaderEncoding(String),
    /// The body could not be serialized; the text is the serializer's cause.
    BodySerializationError(String),
    /// The call to the target failed; the text is the transport's cause.
    TransportError(String),
    /// The target's body is not valid text.
    BodyDecodeError,
}

/// The mathematical form of a `RelayError`.
pub enum RelayErrorView {
    MissingField(Field),
    InvalidUrl,
    InvalidMethod,
    InvalidHeaderEncoding(Seq<char>),
    BodySerializationError(Seq<char>),
    TransportError(Seq<char>),
    BodyDecodeError,
}

impl View for RelayError {
    type V = RelayErrorView;

    open spec fn view(&self) -> RelayErrorView {
        match self {
            RelayError::MissingField(field) => RelayErrorView::MissingField(*field),
            RelayError::InvalidUrl => RelayErrorView::InvalidUrl,
            RelayError::InvalidMethod => RelayErrorView::InvalidMethod,
            RelayError::InvalidHeaderEncoding(name) => RelayErrorView::InvalidHeaderEncoding(
                name@,
            ),
            RelayError::BodySerializationError(cause) => RelayErrorView::BodySerializationError(
                cause@,
            ),
            RelayError::TransportError(cause) => RelayErrorView::TransportError(cause@),
            RelayError::BodyDecodeError => RelayErrorView::BodyDecodeError,
        }
    }
}

impl Field {
    /// The field's name in the request description.
    pub open spec fn name_spec(self) -> Seq<char> {
        match self {
            Field::Url => "url"@,
            Field::Method => "method"@,
        }
    }

    /// The field's name in the request description.
    pub fn name(self) -> (name: &'static str)
        ensures
            name@ == self.name_spec(),
    {
        match self {
            Field::Url => "url",
            Field::Method => "method",
        }
    }
}

impl RelayErrorView {
    /// The family a failure belongs to.
    pub open spec fn class(self) -> ErrorClass {
        match self {
            RelayErrorView::TransportError(_) => ErrorClass::Transport,
            RelayErrorView::BodyDecodeError => ErrorClass::Decode,
            _ => ErrorClass::Validation,
        }
    }

    /// The HTTP status reported to the caller.
    pub open spec fn status(self) -> u16 {
        self.class().status()
    }

    /// The human-readable message reported to the caller. A missing field
    /// is named at the start of its message; a transport failure is
    /// reported with the transport's own description and nothing else.
    pub open spec fn message(self) -> Seq<char> {
        match self {
            RelayErrorView::MissingField(field) => field.name_spec() + " 필드가 필요합니다."@,
            RelayErrorView::InvalidUrl => "잘못된 URL 형식입니다."@,
            RelayErrorView::InvalidMethod => "Unsupported HTTP method"@,
            RelayErrorView::InvalidHeaderEncoding(name) => "Invalid header entry: "@ + name,
            RelayErrorView::BodySerializationError(cause) => "body를 직렬화 할 수 없습니다: "@
                + cause,
            RelayErrorView::TransportError(cause) => cause,
            RelayErrorView::BodyDecodeError => "Failed to read response body"@,
        }
    }
}

impl ErrorClass {
    /// Validation failures are the caller's (400); transport and decode
    /// failures are reported as server-side (500).
    pub open spec fn status(self) -> u16 {
        match self {
            ErrorClass::Validation => 400,
            ErrorClass::Transport => 500,
            ErrorClass::Decode => 500,
        }
    }
}

impl RelayError {
    /// The family this failure belongs to.
    pub fn class(&self) -> (class: ErrorClass)
        ensures
            class == self@.class(),
    {
        match self {
            RelayError::TransportError(_) => ErrorClass::Transport,
            RelayError::BodyDecodeError => ErrorClass::Decode,
            _ => ErrorClass::Validation,
        }
    }

    /// The HTTP status reported to the caller: 400 for a validation
    /// failure, 500 otherwise.
    pub fn status(&self) -> (code: u16)
        ensures
            code == self@.status(),
            code == 400 || code == 500,
            code == 400 <==> self@.class() == ErrorClass::Validation,
    {
        match self.class() {
            ErrorClass::Validation => 400,
            ErrorClass::Transport => 500,
            ErrorClass::Decode => 500,
        }
    }

    /// The human-readable message reported to the caller. A missing field
    /// is named at the start of its message; a transport failure is
    /// reported with the transport's own description and nothing else.
    pub fn message(&self) -> (text: String)
        ensures
            text@ == self@.message(),
    {
        match self {
            RelayError::MissingField(field) => field.name().to_owned().concat(
                " 필드가 필요합니다.",
            ),
            RelayError::InvalidUrl => "잘못된 URL 형식입니다.".to_owned(),
            RelayError::InvalidMethod => "Unsupported HTTP method".to_owned(),
            RelayError::InvalidHeaderEncoding(name) => "Invalid header entry: ".to_owned().concat(
                name.as_str(),
            ),
            RelayError::BodySerializationError(cause) => "body를 직렬화 할 수 없습니다: ".to_owned().concat(
                cause.as_str(),
            ),
            RelayError::TransportError(cause) => cause.clone(),
            RelayError::BodyDecodeError => "Failed to read response body".to_owned(),
        }
    }
}

impl Clone for RelayError {
    fn clone(&self) -> (copy: RelayError)
        ensures
            copy@ == self@,
    {
        match self {
            RelayError::MissingField(field) => RelayError::MissingField(*field),
            RelayError::InvalidUrl => RelayError::InvalidUrl,
            RelayError::InvalidMethod => RelayError::InvalidMethod,
            RelayError::InvalidHeaderEncoding(name) => RelayError::InvalidHeaderEncoding(
                name.clone(),
            ),
            RelayError::BodySerializationError(cause) => RelayError::BodySerializationError(
                cause.clone(),
            ),
            RelayError::TransportError(cause) => RelayError::TransportError(cause.clone()),
            RelayError::BodyDecodeError => RelayError::BodyDecodeError,
        }
    }
}

/// The message for a missing field starts with that field's name, and the
/// names of the two required fields differ, so the message tells which
/// field is missing.
pub proof fn lemma_missing_field_message(field: Field)
    ensures
        RelayErrorView::MissingField(field).message().len() >= field.name_spec().len(),
        RelayErrorView::MissingField(field).message().subrange(
            0,
            field.name_spec().len() as int,
        ) == field.name_spec(),
        Field::Url.name_spec() != Field::Method.name_spec(),
{
    let message = RelayErrorView::MissingField(field).message();
    let name = field.name_spec();
    assert(message.subrange(0, name.len() as int) =~= name);
    reveal_strlit("url");
    reveal_strlit("method");
    assert("url"@.len() == 3);
    assert("method"@.len() == 6);
}

/// The message for a transport failure is the transport's description of
/// the cause, unchanged.
pub proof fn lemma_transport_message(cause: Seq<char>)
    ensures
        RelayErrorView::TransportError(cause).message() == cause,
        RelayErrorView::TransportError(cause).status() == 500,
{
}

} // verus!
