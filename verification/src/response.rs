//! The reply to a request: a status, a content type and a body.

use crate::buffer::bytes_contents;
use crate::buffer::bytes_from_vec;
use crate::error::ServiceError;
use crate::format::AudioFormat;
use bytes::Bytes;
use vstd::prelude::*;
use vstd::string::StrSliceExecFns;
use vstd::utf8::encode_utf8;

verus! {

/// A reply as it is handed to the HTTP layer.
#[derive(Debug)]
pub struct Response {
    pub status: u16,
    pub content_type: &'static str,
    pub body: Bytes,
}

/// A reply as values: the status, the text of the content type, and the
/// bytes of the body.
pub struct Reply {
    pub status: int,
    pub content_type: Seq<char>,
    pub body: Seq<u8>,
}

impl View for Response {
    type V = Reply;

    open spec fn view(&self) -> Reply {
        Reply {
            status: self.status as int,
            content_type: self.content_type@,
            body: bytes_contents(self.body),
        }
    }
}

/// The content type of a reply that carries a message.
pub open spec fn message_content_type() -> Seq<char> {
    "text/plain; charset=utf-8"@
}

/// The reply to a request that was transcoded: status 200, the label of the
/// format, and the output as the body, unchanged.
pub open spec fn audio_reply(output: Seq<u8>, format: AudioFormat) -> Reply {
    Reply { status: 200, content_type: format.spec_content_type(), body: output }
}

/// The reply to a request that failed: the status of the error, and its
/// message as plain text in UTF-8.
pub open spec fn error_reply(error: ServiceError) -> Reply {
    Reply {
        status: error.spec_status(),
        content_type: message_content_type(),
        body: encode_utf8(error.spec_message()),
    }
}

/// Labels the output of the transcoder for the client. The bytes are not
/// touched.
pub fn audio_response(output: Bytes, format: AudioFormat) -> (response: Response)
    ensures
        response@ == audio_reply(bytes_contents(output), format),
{
    Response { status: 200, content_type: format.content_type(), body: output }
}

/// Builds the reply that tells the client of `error`.
pub fn error_response(error: &ServiceError) -> (response: Response)
    ensures
        response@ == error_reply(*error),
{
    let text = error.message();
    let body = bytes_from_vec(text.as_str().as_bytes_vec());
    Response { status: error.status(), content_type: "text/plain; charset=utf-8", body }
}

/// The reply to a failure has status 400 or 500, and never the label of an
/// audio format; the reply to a success has status 200 and the label of the
/// format that was asked for.
pub proof fn lemma_replies_are_labelled(output: Seq<u8>, format: AudioFormat, error: ServiceError)
    ensures
        audio_reply(output, format).status == 200,
        audio_reply(output, format).content_type == format.spec_content_type(),
        audio_reply(output, format).body == output,
        error_reply(error).status == 400 || error_reply(error).status == 500,
        error_reply(error).status == 400 <==> error.is_client_fault(),
        error_reply(error).content_type != AudioFormat::Wav.spec_content_type(),
        error_reply(error).content_type != AudioFormat::Mp3.spec_content_type(),
{
    reveal_strlit("text/plain; charset=utf-8");
    reveal_strlit("audio/wav");
    reveal_strlit("audio/mpeg");
    assert("text/plain; charset=utf-8"@.len() != "audio/wav"@.len());
    assert("text/plain; charset=utf-8"@.len() != "audio/mpeg"@.len());
}

/// The replies to any two faults of the service are the same, so a reply
/// with status 500 carries nothing of what the transcoder wrote or of why it
/// failed.
pub proof fn lemma_server_fault_replies_are_alike(a: ServiceError, b: ServiceError)
    requires
        !a.is_client_fault(),
        !b.is_client_fault(),
    ensures
        error_reply(a) == error_reply(b),
        error_reply(a).status == 500,
        error_reply(a).body == encode_utf8("Internal Server Error"@),
{
}

} // verus!
