use bytes::Bytes;
use ogg_transcoder::error::RequiredHeader;
use ogg_transcoder::error::ServiceError;
use ogg_transcoder::format::AudioFormat;
use ogg_transcoder::response::audio_response;
use ogg_transcoder::response::error_response;

#[test]
fn wav_reply_is_labelled_and_unchanged() {
    let response = audio_response(Bytes::from(b"RIFF\x00\xff".to_vec()), AudioFormat::Wav);
    assert_eq!(response.status, 200);
    assert_eq!(response.content_type, "audio/wav");
    assert_eq!(response.body.to_vec(), b"RIFF\x00\xff".to_vec());
}

#[test]
fn mp3_reply_is_labelled_and_unchanged() {
    let response = audio_response(Bytes::from(b"ID3\x04".to_vec()), AudioFormat::Mp3);
    assert_eq!(response.status, 200);
    assert_eq!(response.content_type, "audio/mpeg");
    assert_eq!(response.body.to_vec(), b"ID3\x04".to_vec());
}

#[test]
fn empty_output_gives_an_empty_reply_body() {
    let response = audio_response(Bytes::new(), AudioFormat::Mp3);
    assert_eq!(response.status, 200);
    assert!(response.body.is_empty());
}

#[test]
fn client_error_reply_names_the_reason() {
    let response = error_response(&ServiceError::MissingHeader(RequiredHeader::ContentLength));
    assert_eq!(response.status, 400);
    assert_eq!(response.content_type, "text/plain; charset=utf-8");
    assert_eq!(response.body.to_vec(), b"Missing Content-Length header".to_vec());
    let response = error_response(&ServiceError::Overflow);
    assert_eq!(response.status, 400);
    assert_eq!(response.body.to_vec(), b"overflow".to_vec());
}

#[test]
fn stream_fault_reply_carries_the_fault_as_utf8() {
    let response = error_response(&ServiceError::StreamReadError(String::from("d\u{e9}connect\u{e9}")));
    assert_eq!(response.status, 400);
    assert_eq!(response.body.to_vec(), "d\u{e9}connect\u{e9}".as_bytes().to_vec());
}

#[test]
fn server_error_replies_are_alike() {
    for error in [
        ServiceError::SpawnError,
        ServiceError::PipeUnavailable,
        ServiceError::TransferError,
        ServiceError::TranscodeFailed,
    ] {
        let response = error_response(&error);
        assert_eq!(response.status, 500);
        assert_eq!(response.content_type, "text/plain; charset=utf-8");
        assert_eq!(response.body.to_vec(), b"Internal Server Error".to_vec());
    }
}
