//! The ways in which a request can fail, and how each is shown to the client.

use vstd::prelude::*;
use vstd::string::StringExecFns;

verus! {

/// A header that every request has to carry.
#[derive(Clone, Copy, Debug, PartialEq, Eq, Structural)]
pub enum RequiredHeader {
    ContentType,
    ContentLength,
}

/// Why a request was not answered with transcoded audio.
#[derive(Debug, PartialEq, Eq)]
pub enum ServiceError {
    /// A required header is absent.
    MissingHeader(RequiredHeader),
    /// The declared content type is not the accepted one.
    UnsupportedMediaType,
    /// The declared length is over the limit.
    PayloadTooLarge,
    /// The bytes that arrived are more than the limit, whatever was declared.
    Overflow,
    /// The transport failed while the body was read; the text describes the
    /// fault.
    StreamReadError(String),
    /// The transcoder could not be started.
    SpawnError,
    /// A pipe of the started transcoder could not be had.
    PipeUnavailable,
    /// Writing the input to the transcoder, or reading its output, failed.
    TransferError,
    /// The transcoder did not end with exit code zero.
    TranscodeFailed,
}

impl ServiceError {
    /// Whether the fault lies with the request or its transport, as opposed
    /// to the service.
    pub open spec fn is_client_fault(self) -> bool {
        match self {
            ServiceError::MissingHeader(_) => true,
            ServiceError::UnsupportedMediaType => true,
            ServiceError::PayloadTooLarge => true,
            ServiceError::Overflow => true,
            ServiceError::StreamReadError(_) => true,
            ServiceError::SpawnError => false,
            ServiceError::PipeUnavailable => false,
            ServiceError::TransferError => false,
            ServiceError::TranscodeFailed => false,
        }
    }

    /// The HTTP status of the reply: 400 for a client fault, 500 otherwise.
    pub open spec fn spec_status(self) -> int {
        if self.is_client_fault() {
            400
        } else {
            500
        }
    }

    /// The text of the reply. A client fault is named; a fault of the service
    /// is answered with one fixed sentence, whatever went wrong.
    pub open spec fn spec_message(self) -> Seq<char> {
        match self {
            ServiceError::MissingHeader(RequiredHeader::ContentType) => "Missing Content-Type header"@,
            ServiceError::MissingHeader(RequiredHeader::ContentLength) => "Missing Content-Length header"@,
            ServiceError::UnsupportedMediaType => "Content-Type must be audio/ogg"@,
            ServiceError::PayloadTooLarge => "Content-Length too large"@,
            ServiceError::Overflow => "overflow"@,
            ServiceError::StreamReadError(detail) => detail@,
            ServiceError::SpawnError => "Internal Server Error"@,
            ServiceError::PipeUnavailable => "Internal Server Error"@,
            ServiceError::TransferError => "Internal Server Error"@,
            ServiceError::TranscodeFailed => "Internal Server Error"@,
        }
    }

    /// Whether the reply to this error has status 400 rather than 500.
    pub fn is_client_error(&self) -> (client: bool)
        ensures
            client == self.is_client_fault(),
    {
        match self {
            ServiceError::MissingHeader(_) => true,
            ServiceError::UnsupportedMediaType => true,
            ServiceError::PayloadTooLarge => true,
            ServiceError::Overflow => true,
            ServiceError::StreamReadError(_) => true,
            ServiceError::SpawnError => false,
            ServiceError::PipeUnavailable => false,
            ServiceError::TransferError => false,
            ServiceError::TranscodeFailed => false,
        }
    }

    /// The HTTP status of the reply to this error.
    pub fn status(&self) -> (code: u16)
        ensures
            code == self.spec_status(),
    {
        if self.is_client_error() {
            400
        } else {
            500
        }
    }

    /// The text of the reply to this error.
    pub fn message(&self) -> (text: String)
        ensures
            text@ == self.spec_message(),
    {
        match self {
            ServiceError::MissingHeader(RequiredHeader::ContentType) => String::from_str("Missing Content-Type header"),
            ServiceError::MissingHeader(RequiredHeader::ContentLength) => String::from_str("Missing Content-Length header"),
            ServiceError::UnsupportedMediaType => String::from_str("Content-Type must be audio/ogg"),
            ServiceError::PayloadTooLarge => String::from_str("Content-Length too large"),
            ServiceError::Overflow => String::from_str("overflow"),
            ServiceError::StreamReadError(detail) => detail.clone(),
            ServiceError::SpawnError => String::from_str("Internal Server Error"),
            ServiceError::PipeUnavailable => String::from_str("Internal Server Error"),
            ServiceError::TransferError => String::from_str("Internal Server Error"),
            ServiceError::TranscodeFailed => String::from_str("Internal Server Error"),
        }
    }
}

/// Every fault of the service is shown to the client in the same words, so
/// the reply tells nothing of what went wrong inside.
pub proof fn lemma_server_faults_share_one_message(a: ServiceError, b: ServiceError)
    requires
        !a.is_client_fault(),
        !b.is_client_fault(),
    ensures
        a.spec_status() == 500,
        a.spec_message() == b.spec_message(),
        a.spec_message() == "Internal Server Error"@,
{
}

} // verus!
