use ogg_transcoder::error::RequiredHeader;
use ogg_transcoder::error::ServiceError;
use ogg_transcoder::limits::MAX_SIZE;
use ogg_transcoder::request::check_request;
use ogg_transcoder::text::same_text;

#[test]
fn limit_is_64_mib() {
    assert_eq!(MAX_SIZE, 64 * 1024 * 1024);
    assert_eq!(MAX_SIZE, 67_108_864);
}

#[test]
fn accepts_ogg_within_limit() {
    assert_eq!(check_request(Some("audio/ogg"), Some(10)), Ok(()));
    assert_eq!(check_request(Some("audio/ogg"), Some(0)), Ok(()));
}

#[test]
fn accepts_length_at_the_limit() {
    assert_eq!(check_request(Some("audio/ogg"), Some(MAX_SIZE)), Ok(()));
}

#[test]
fn refuses_length_over_the_limit() {
    assert_eq!(
        check_request(Some("audio/ogg"), Some(MAX_SIZE + 1)),
        Err(ServiceError::PayloadTooLarge)
    );
    assert_eq!(
        check_request(Some("audio/ogg"), Some(usize::MAX)),
        Err(ServiceError::PayloadTooLarge)
    );
}

#[test]
fn refuses_missing_content_type() {
    assert_eq!(
        check_request(None, Some(10)),
        Err(ServiceError::MissingHeader(RequiredHeader::ContentType))
    );
}

#[test]
fn refuses_missing_content_length() {
    assert_eq!(
        check_request(Some("audio/ogg"), None),
        Err(ServiceError::MissingHeader(RequiredHeader::ContentLength))
    );
}

#[test]
fn missing_content_type_is_named_first() {
    assert_eq!(
        check_request(None, None),
        Err(ServiceError::MissingHeader(RequiredHeader::ContentType))
    );
    assert_eq!(
        check_request(None, Some(MAX_SIZE + 1)),
        Err(ServiceError::MissingHeader(RequiredHeader::ContentType))
    );
}

#[test]
fn missing_content_length_comes_before_the_media_type() {
    assert_eq!(
        check_request(Some("text/plain"), None),
        Err(ServiceError::MissingHeader(RequiredHeader::ContentLength))
    );
}

#[test]
fn refuses_other_media_types() {
    for other in [
        "audio/wav",
        "audio/mpeg",
        "text/plain",
        "",
        "audio/ogg ",
        " audio/ogg",
        "audio/ogg; codecs=opus",
        "Audio/Ogg",
        "AUDIO/OGG",
        "audio/og",
        "audio/oggg",
        "application/ogg",
    ] {
        assert_eq!(
            check_request(Some(other), Some(10)),
            Err(ServiceError::UnsupportedMediaType),
            "{:?}",
            other
        );
    }
}

#[test]
fn media_type_is_judged_before_the_length() {
    assert_eq!(
        check_request(Some("audio/wav"), Some(MAX_SIZE + 1)),
        Err(ServiceError::UnsupportedMediaType)
    );
}

#[test]
fn every_refusal_has_status_400() {
    let declared_types = [None, Some("audio/ogg"), Some("audio/wav")];
    let declared_lengths = [None, Some(0), Some(MAX_SIZE), Some(MAX_SIZE + 1)];
    for content_type in declared_types {
        for content_length in declared_lengths {
            match check_request(content_type, content_length) {
                Ok(()) => {
                    assert_eq!(content_type, Some("audio/ogg"));
                    assert!(matches!(content_length, Some(n) if n <= MAX_SIZE));
                }
                Err(error) => assert_eq!(error.status(), 400),
            }
        }
    }
}

#[test]
fn same_text_compares_characters() {
    assert!(same_text("", ""));
    assert!(same_text("audio/ogg", "audio/ogg"));
    assert!(!same_text("audio/ogg", "audio/ogG"));
    assert!(!same_text("audio/ogg", "audio/og"));
    assert!(!same_text("audio/og", "audio/ogg"));
    assert!(!same_text("", "a"));
    assert!(same_text("\u{e9}t\u{e9}", "\u{e9}t\u{e9}"));
    assert!(!same_text("\u{e9}", "e"));
    let built = format!("{}/{}", "audio", "ogg");
    assert!(same_text(&built, "audio/ogg"));
}
