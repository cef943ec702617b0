//! The container formats that the service produces.

use vstd::prelude::*;

verus! {

/// The container format asked of the transcoder.
#[derive(Clone, Copy, Debug, PartialEq, Eq, Structural)]
pub enum AudioFormat {
    Wav,
    Mp3,
}

impl AudioFormat {
    /// The value of the `Content-Type` header of a reply in this format.
    pub open spec fn spec_content_type(self) -> Seq<char> {
        match self {
            AudioFormat::Wav => "audio/wav"@,
            AudioFormat::Mp3 => "audio/mpeg"@,
        }
    }

    /// The word that selects this format on the transcoder's command line.
    pub open spec fn spec_format_flag(self) -> Seq<char> {
        match self {
            AudioFormat::Wav => "wav"@,
            AudioFormat::Mp3 => "mp3"@,
        }
    }

    /// The label of a reply in this format.
    pub fn content_type(self) -> (label: &'static str)
        ensures
            label@ == self.spec_content_type(),
    {
        match self {
            AudioFormat::Wav => "audio/wav",
            AudioFormat::Mp3 => "audio/mpeg",
        }
    }

    /// The command-line word for this format.
    pub fn format_flag(self) -> (flag: &'static str)
        ensures
            flag@ == self.spec_format_flag(),
    {
        match self {
            AudioFormat::Wav => "wav",
            AudioFormat::Mp3 => "mp3",
        }
    }
}

/// Two formats carry the same label, or the same command-line word, only if
/// they are the same format.
pub proof fn lemma_formats_are_told_apart(a: AudioFormat, b: AudioFormat)
    ensures
        a.spec_content_type() == b.spec_content_type() ==> a == b,
        a.spec_format_flag() == b.spec_format_flag() ==> a == b,
{
    reveal_strlit("audio/wav");
    reveal_strlit("audio/mpeg");
    reveal_strlit("wav");
    reveal_strlit("mp3");
    assert("audio/wav"@.len() != "audio/mpeg"@.len());
    assert("wav"@[0] != "mp3"@[0]);
}

} // verus!
