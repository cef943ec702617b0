//! Validation of what a request declares about its body, before any byte of
//! the body is read.

use crate::error::RequiredHeader;
use crate::error::ServiceError;
use crate::limits::MAX_SIZE;
use crate::text::same_text;
use vstd::prelude::*;

verus! {

/// The one content type that the service accepts.
pub open spec fn accepted_media_type() -> Seq<char> {
    "audio/ogg"@
}

/// The verdict on a request's declarations: its content type and its content
/// length, each of which may be absent. The checks are made in this order:
/// content type present, content length present, content type accepted,
/// length within the limit. The first that fails names the error.
pub open spec fn request_verdict(
    content_type: Option<Seq<char>>,
    content_length: Option<int>,
) -> Result<(), ServiceError> {
    match (content_type, content_length) {
        (None, _) => Err(ServiceError::MissingHeader(RequiredHeader::ContentType)),
        (Some(_), None) => Err(ServiceError::MissingHeader(RequiredHeader::ContentLength)),
        (Some(declared), Some(length)) => {
            if declared != accepted_media_type() {
                Err(ServiceError::UnsupportedMediaType)
            } else if length > MAX_SIZE {
                Err(ServiceError::PayloadTooLarge)
            } else {
                Ok(())
            }
        },
    }
}

/// The characters of a header value that may be absent.
pub open spec fn declared_type(content_type: Option<&str>) -> Option<Seq<char>> {
    match content_type {
        Some(text) => Some(text@),
        None => None,
    }
}

/// The number in a length header that may be absent.
pub open spec fn declared_length(content_length: Option<usize>) -> Option<int> {
    match content_length {
        Some(length) => Some(length as int),
        None => None,
    }
}

/// Checks the declared content type and content length of a request. Nothing
/// but the two values is looked at.
pub fn check_request(content_type: Option<&str>, content_length: Option<usize>) -> (verdict: Result<
    (),
    ServiceError,
>)
    ensures
        verdict == request_verdict(declared_type(content_type), declared_length(content_length)),
{
    let declared = match content_type {
        Some(declared) => declared,
        None => {
            return Err(ServiceError::MissingHeader(RequiredHeader::ContentType));
        },
    };
    let length = match content_length {
        Some(length) => length,
        None => {
            return Err(ServiceError::MissingHeader(RequiredHeader::ContentLength));
        },
    };
    if !same_text(declared, "audio/ogg") {
        return Err(ServiceError::UnsupportedMediaType);
    }
    if length > MAX_SIZE {
        return Err(ServiceError::PayloadTooLarge);
    }
    Ok(())
}

/// A request is accepted exactly when it declares the accepted content type
/// and a length within the limit.
pub proof fn lemma_accepted_requests(content_type: Option<Seq<char>>, content_length: Option<int>)
    ensures
        request_verdict(content_type, content_length) is Ok <==> (content_type == Some(
            accepted_media_type(),
        ) && content_length is Some && content_length->Some_0 <= MAX_SIZE),
{
}

/// A refused request is the client's fault: the reply has status 400.
pub proof fn lemma_refusal_is_client_fault(content_type: Option<Seq<char>>, content_length: Option<int>)
    requires
        request_verdict(content_type, content_length) is Err,
    ensures
        request_verdict(content_type, content_length)->Err_0.spec_status() == 400,
{
}

/// A request that lacks its content type or its content length is refused
/// for the missing header, with status 400.
pub proof fn lemma_missing_header_is_refused(
    content_type: Option<Seq<char>>,
    content_length: Option<int>,
)
    requires
        content_type is None || content_length is None,
    ensures
        request_verdict(content_type, content_length) is Err,
        request_verdict(content_type, content_length)->Err_0 is MissingHeader,
        request_verdict(content_type, content_length)->Err_0.spec_status() == 400,
{
}

/// A request whose content type is not the accepted one is refused with
/// status 400, whatever length it declares.
pub proof fn lemma_other_media_type_is_refused(
    content_type: Option<Seq<char>>,
    content_length: Option<int>,
)
    requires
        content_type != Some(accepted_media_type()),
    ensures
        request_verdict(content_type, content_length) is Err,
        request_verdict(content_type, content_length)->Err_0.spec_status() == 400,
        content_type is Some && content_length is Some ==> request_verdict(
            content_type,
            content_length,
        ) == Err::<(), ServiceError>(ServiceError::UnsupportedMediaType),
{
}

/// A request that declares more than the limit is refused with status 400,
/// whatever else it declares.
pub proof fn lemma_declared_length_over_limit_is_refused(
    content_type: Option<Seq<char>>,
    content_length: Option<int>,
)
    requires
        content_length is Some,
        content_length->Some_0 > MAX_SIZE,
    ensures
        request_verdict(content_type, content_length) is Err,
        request_verdict(content_type, content_length)->Err_0.spec_status() == 400,
        content_type == Some(accepted_media_type()) ==> request_verdict(
            content_type,
            content_length,
        ) == Err::<(), ServiceError>(ServiceError::PayloadTooLarge),
{
}

} // verus!
