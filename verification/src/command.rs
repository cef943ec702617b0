//! The command line of the transcoder.

use crate::format::AudioFormat;
use vstd::prelude::*;

verus! {

/// The program to start and the arguments to start it with.
#[derive(Debug)]
pub struct Command {
    pub program: &'static str,
    pub arguments: Vec<&'static str>,
}

/// A command as text: the program's path and the arguments in order.
pub struct CommandLine {
    pub program: Seq<char>,
    pub arguments: Seq<Seq<char>>,
}

impl View for Command {
    type V = CommandLine;

    open spec fn view(&self) -> CommandLine {
        CommandLine { program: self.program@, arguments: self.arguments.deep_view() }
    }
}

/// The path of the transcoder.
pub open spec fn transcoder_program() -> Seq<char> {
    "/usr/bin/ffmpeg"@
}

/// The arguments for one run of the transcoder: read the input from
/// standard input, encode the audio with the MP3 encoder, report errors only,
/// write the container that `format` names, and write it to standard output.
pub open spec fn transcoder_arguments(format: AudioFormat) -> Seq<Seq<char>> {
    seq![
        "-i"@,
        "pipe:0"@,
        "-codec:a"@,
        "libmp3lame"@,
        "-loglevel"@,
        "error"@,
        "-f"@,
        format.spec_format_flag(),
        "pipe:1"@,
    ]
}

/// The command line that transcodes to `format`.
pub open spec fn transcoder_command_line(format: AudioFormat) -> CommandLine {
    CommandLine { program: transcoder_program(), arguments: transcoder_arguments(format) }
}

/// Builds the command that transcodes to `format`.
pub fn transcoder_command(format: AudioFormat) -> (command: Command)
    ensures
        command@ == transcoder_command_line(format),
{
    let mut arguments: Vec<&'static str> = Vec::new();
    arguments.push("-i");
    arguments.push("pipe:0");
    arguments.push("-codec:a");
    arguments.push("libmp3lame");
    arguments.push("-loglevel");
    arguments.push("error");
    arguments.push("-f");
    arguments.push(format.format_flag());
    arguments.push("pipe:1");
    assert(arguments.deep_view() =~= transcoder_arguments(format));
    Command { program: "/usr/bin/ffmpeg", arguments }
}

/// The two formats are asked for by command lines that differ in the format
/// word alone.
pub proof fn lemma_commands_differ_in_format_only(a: AudioFormat, b: AudioFormat)
    ensures
        transcoder_command_line(a).program == transcoder_command_line(b).program,
        transcoder_arguments(a).len() == 9,
        forall|i: int| 0 <= i < 9 && i != 7 ==> transcoder_arguments(a)[i] == transcoder_arguments(b)[i],
        transcoder_arguments(a)[7] == a.spec_format_flag(),
{
}

} // verus!
