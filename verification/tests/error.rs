use ogg_transcoder::error::RequiredHeader;
use ogg_transcoder::error::ServiceError;
use ogg_transcoder::format::AudioFormat;

fn client_errors() -> Vec<ServiceError> {
    vec![
        ServiceError::MissingHeader(RequiredHeader::ContentType),
        ServiceError::MissingHeader(RequiredHeader::ContentLength),
        ServiceError::UnsupportedMediaType,
        ServiceError::PayloadTooLarge,
        ServiceError::Overflow,
        ServiceError::StreamReadError(String::from("connection reset")),
    ]
}

fn server_errors() -> Vec<ServiceError> {
    vec![
        ServiceError::SpawnError,
        ServiceError::PipeUnavailable,
        ServiceError::TransferError,
        ServiceError::TranscodeFailed,
    ]
}

#[test]
fn client_errors_have_status_400() {
    for error in client_errors() {
        assert!(error.is_client_error(), "{:?}", error);
        assert_eq!(error.status(), 400, "{:?}", error);
    }
}

#[test]
fn server_errors_have_status_500() {
    for error in server_errors() {
        assert!(!error.is_client_error(), "{:?}", error);
        assert_eq!(error.status(), 500, "{:?}", error);
    }
}

#[test]
fn client_errors_are_named() {
    assert_eq!(
        ServiceError::MissingHeader(RequiredHeader::ContentType).message(),
        "Missing Content-Type header"
    );
    assert_eq!(
        ServiceError::MissingHeader(RequiredHeader::ContentLength).message(),
        "Missing Content-Length header"
    );
    assert_eq!(
        ServiceError::UnsupportedMediaType.message(),
        "Content-Type must be audio/ogg"
    );
    assert_eq!(ServiceError::PayloadTooLarge.message(), "Content-Length too large");
    assert_eq!(ServiceError::Overflow.message(), "overflow");
    assert_eq!(
        ServiceError::StreamReadError(String::from("connection reset")).message(),
        "connection reset"
    );
}

#[test]
fn server_errors_share_one_message() {
    for error in server_errors() {
        assert_eq!(error.message(), "Internal Server Error", "{:?}", error);
    }
}

#[test]
fn formats_have_their_labels_and_flags() {
    assert_eq!(AudioFormat::Wav.content_type(), "audio/wav");
    assert_eq!(AudioFormat::Mp3.content_type(), "audio/mpeg");
    assert_eq!(AudioFormat::Wav.format_flag(), "wav");
    assert_eq!(AudioFormat::Mp3.format_flag(), "mp3");
    assert_ne!(AudioFormat::Wav, AudioFormat::Mp3);
}
