//! The life of one transcoder process, as a machine that is told what
//! happened and answers what to do next.
//!
//! A job passes through `Spawning`, `PipesOpen`, `Transferring` and `Exited`
//! and ends in `Succeeded` or `Failed`. The driver starts the process, opens
//! its pipes, moves the bytes and waits for the exit; the job decides.

use bytes::Bytes;
use crate::buffer::bytes_as_slice;
use crate::buffer::bytes_contents;
use crate::buffer::bytes_from_vec;
use crate::command::Command;
use crate::command::CommandLine;
use crate::command::transcoder_command;
use crate::command::transcoder_command_line;
use crate::error::ServiceError;
use crate::format::AudioFormat;
use vstd::prelude::*;
use vstd::slice::slice_to_vec;

verus! {

/// How a process ended.
#[derive(Clone, Copy, Debug, PartialEq, Eq, Structural)]
pub enum ProcessExit {
    /// It exited with this code.
    Exited(u32),
    /// A signal with this number ended it.
    Signaled(u8),
    /// It ended in a way that neither of the above describes.
    Other(i32),
    /// It is over, but how it ended is not known.
    Undetermined,
}

impl ProcessExit {
    /// Only exit code zero is a success.
    pub open spec fn is_success(self) -> bool {
        self == ProcessExit::Exited(0)
    }

    /// Whether the process ended with exit code zero.
    pub fn success(self) -> (ok: bool)
        ensures
            ok == self.is_success(),
    {
        match self {
            ProcessExit::Exited(code) => code == 0,
            _ => false,
        }
    }
}

/// How far one of the two data movements has come.
#[derive(Debug)]
pub enum Progress<T> {
    /// Still under way.
    Pending,
    /// Over, with this result.
    Done(T),
    /// Over, with an error.
    Failed,
}

/// What the driver reports to a job.
#[derive(Debug)]
pub enum Event {
    /// The process was started.
    Spawned,
    /// The process could not be started.
    SpawnFailed,
    /// Both pipes of the process are in hand.
    PipesReady,
    /// A pipe of the process could not be had.
    PipeMissing,
    /// The whole input was written and the input pipe was closed.
    InputWritten,
    /// Writing the input failed.
    InputFailed,
    /// The output pipe reached its end; these are all the bytes that came.
    OutputRead(Vec<u8>),
    /// Reading the output failed.
    OutputFailed,
    /// The process is over.
    Terminated(ProcessExit),
}

/// What a job asks of the driver.
#[derive(Debug)]
pub enum Action {
    /// Start the process with this command, its standard input and output
    /// connected to pipes.
    Spawn(Command),
    /// Take the two pipes of the process.
    OpenPipes,
    /// Start both data movements at once: write these bytes to the input
    /// pipe and close it, and read the output pipe to its end. Report each
    /// when it is over.
    Transfer(Vec<u8>),
    /// Nothing new: the other data movement is still under way.
    Await,
    /// Both data movements are over: wait for the process to end.
    AwaitExit,
    /// The job succeeded with this output.
    Deliver(Bytes),
    /// The job failed.
    Fail(ServiceError),
    /// The event does not belong to the phase the job is in; the job is as
    /// it was.
    Rejected,
}

/// An action with the bytes and the text it carries.
pub enum Directive {
    Spawn(CommandLine),
    OpenPipes,
    Transfer(Seq<u8>),
    Await,
    AwaitExit,
    Deliver(Seq<u8>),
    Fail(ServiceError),
    Rejected,
}

impl View for Action {
    type V = Directive;

    open spec fn view(&self) -> Directive {
        match *self {
            Action::Spawn(command) => Directive::Spawn(command@),
            Action::OpenPipes => Directive::OpenPipes,
            Action::Transfer(input) => Directive::Transfer(input@),
            Action::Await => Directive::Await,
            Action::AwaitExit => Directive::AwaitExit,
            Action::Deliver(output) => Directive::Deliver(bytes_contents(output)),
            Action::Fail(error) => Directive::Fail(error),
            Action::Rejected => Directive::Rejected,
        }
    }
}

/// The state of a job.
pub enum JobState {
    /// The process is being started; the input waits.
    Spawning { input: Seq<u8> },
    /// The process runs and its pipes are being taken; the input waits.
    PipesOpen { input: Seq<u8> },
    /// The input is being written and the output read, each at its own pace.
    Transferring { written: Progress<()>, read: Progress<Seq<u8>> },
    /// Both data movements are over and the end of the process is awaited.
    /// `output` is what was read, if both movements went well.
    Exited { output: Option<Seq<u8>> },
    /// The output was delivered.
    Succeeded,
    /// The job failed.
    Failed,
}

impl JobState {
    /// Whether the job is over.
    pub open spec fn is_final(self) -> bool {
        self is Succeeded || self is Failed
    }
}

/// What was read, if the input was written and the output was read without
/// an error.
pub open spec fn transferred(written: Progress<()>, read: Progress<Seq<u8>>) -> Option<Seq<u8>> {
    match (written, read) {
        (Progress::Done(_), Progress::Done(output)) => Some(output),
        _ => None,
    }
}

/// The step taken when one of the two data movements has ended: while the
/// other is under way the job waits for it; when both are over, whether well
/// or not, the job goes on to await the exit.
pub open spec fn after_movement(written: Progress<()>, read: Progress<Seq<u8>>) -> (
    JobState,
    Directive,
) {
    if written is Pending || read is Pending {
        (JobState::Transferring { written, read }, Directive::Await)
    } else {
        (JobState::Exited { output: transferred(written, read) }, Directive::AwaitExit)
    }
}

/// The end of a job, once the process is over: a failed data movement is a
/// transfer error whatever the exit; an exit other than code zero is a failed
/// transcode, whatever was read; otherwise the output is delivered as read.
pub open spec fn conclusion(output: Option<Seq<u8>>, exit: ProcessExit) -> (JobState, Directive) {
    match output {
        None => (JobState::Failed, Directive::Fail(ServiceError::TransferError)),
        Some(bytes) => {
            if exit.is_success() {
                (JobState::Succeeded, Directive::Deliver(bytes))
            } else {
                (JobState::Failed, Directive::Fail(ServiceError::TranscodeFailed))
            }
        },
    }
}

/// The state that follows `state` on `event`, and what the driver is to do.
/// An event that the state does not await is rejected and changes nothing.
pub open spec fn transition(state: JobState, event: Event) -> (JobState, Directive) {
    match (state, event) {
        (JobState::Spawning { input }, Event::Spawned) => (
            JobState::PipesOpen { input },
            Directive::OpenPipes,
        ),
        (JobState::Spawning { .. }, Event::SpawnFailed) => (
            JobState::Failed,
            Directive::Fail(ServiceError::SpawnError),
        ),
        (JobState::PipesOpen { input }, Event::PipesReady) => (
            JobState::Transferring { written: Progress::Pending, read: Progress::Pending },
            Directive::Transfer(input),
        ),
        (JobState::PipesOpen { .. }, Event::PipeMissing) => (
            JobState::Failed,
            Directive::Fail(ServiceError::PipeUnavailable),
        ),
        (JobState::Transferring { written: Progress::Pending, read }, Event::InputWritten) => after_movement(
            Progress::Done(()),
            read,
        ),
        (JobState::Transferring { written: Progress::Pending, read }, Event::InputFailed) => after_movement(
            Progress::Failed,
            read,
        ),
        (
            JobState::Transferring { written, read: Progress::Pending },
            Event::OutputRead(output),
        ) => after_movement(written, Progress::Done(output@)),
        (JobState::Transferring { written, read: Progress::Pending }, Event::OutputFailed) => after_movement(
            written,
            Progress::Failed,
        ),
        (JobState::Exited { output }, Event::Terminated(exit)) => conclusion(output, exit),
        _ => (state, Directive::Rejected),
    }
}

/// The state in which a job for `input` begins, and its first directive.
pub open spec fn beginning(input: Seq<u8>, format: AudioFormat) -> (JobState, Directive) {
    (JobState::Spawning { input }, Directive::Spawn(transcoder_command_line(format)))
}

enum Stage {
    Spawning { input: Bytes },
    PipesOpen { input: Bytes },
    Transferring { written: Progress<()>, read: Progress<Vec<u8>> },
    Exited { output: Option<Vec<u8>> },
    Succeeded,
    Failed,
}

/// One run of the transcoder on one input.
pub struct TranscodeJob {
    stage: Stage,
}

impl View for TranscodeJob {
    type V = JobState;

    closed spec fn view(&self) -> JobState {
        match self.stage {
            Stage::Spawning { input } => JobState::Spawning { input: bytes_contents(input) },
            Stage::PipesOpen { input } => JobState::PipesOpen { input: bytes_contents(input) },
            Stage::Transferring { written, read } => JobState::Transferring {
                written,
                read: match read {
                    Progress::Pending => Progress::Pending,
                    Progress::Done(output) => Progress::Done(output@),
                    Progress::Failed => Progress::Failed,
                },
            },
            Stage::Exited { output } => JobState::Exited {
                output: match output {
                    Some(bytes) => Some(bytes@),
                    None => None,
                },
            },
            Stage::Succeeded => JobState::Succeeded,
            Stage::Failed => JobState::Failed,
        }
    }
}

impl TranscodeJob {
    /// Begins a job that transcodes `input` to `format`. The first thing to
    /// do is to start the transcoder.
    pub fn start(input: Bytes, format: AudioFormat) -> (begun: (Self, Action))
        ensures
            (begun.0@, begun.1@) == beginning(bytes_contents(input), format),
    {
        (TranscodeJob { stage: Stage::Spawning { input } }, Action::Spawn(transcoder_command(format)))
    }

    /// Whether the job is over.
    pub fn is_over(&self) -> (over: bool)
        ensures
            over == self@.is_final(),
    {
        match self.stage {
            Stage::Succeeded => true,
            Stage::Failed => true,
            _ => false,
        }
    }

    /// The job once one of the two data movements has ended.
    fn settle(written: Progress<()>, read: Progress<Vec<u8>>) -> (next: (Self, Action))
        ensures
            (next.0@, next.1@) == after_movement(
                written,
                match read {
                    Progress::Pending => Progress::Pending,
                    Progress::Done(output) => Progress::Done(output@),
                    Progress::Failed => Progress::Failed,
                },
            ),
    {
        match (written, read) {
            (Progress::Pending, read) => (
                TranscodeJob { stage: Stage::Transferring { written: Progress::Pending, read } },
                Action::Await,
            ),
            (written, Progress::Pending) => (
                TranscodeJob { stage: Stage::Transferring { written, read: Progress::Pending } },
                Action::Await,
            ),
            (Progress::Done(_), Progress::Done(output)) => (
                TranscodeJob { stage: Stage::Exited { output: Some(output) } },
                Action::AwaitExit,
            ),
            _ => (TranscodeJob { stage: Stage::Exited { output: None } }, Action::AwaitExit),
        }
    }

    /// Takes the job one step on: `event` is what the driver saw, the result
    /// is the job after it and what the driver is to do next.
    pub fn step(self, event: Event) -> (next: (Self, Action))
        ensures
            (next.0@, next.1@) == transition(self@, event),
    {
        match (self.stage, event) {
            (Stage::Spawning { input }, Event::Spawned) => (
                TranscodeJob { stage: Stage::PipesOpen { input } },
                Action::OpenPipes,
            ),
            (Stage::Spawning { .. }, Event::SpawnFailed) => (
                TranscodeJob { stage: Stage::Failed },
                Action::Fail(ServiceError::SpawnError),
            ),
            (Stage::PipesOpen { input }, Event::PipesReady) => {
                let bytes = slice_to_vec(bytes_as_slice(&input));
                (
                    TranscodeJob {
                        stage: Stage::Transferring { written: Progress::Pending, read: Progress::Pending },
                    },
                    Action::Transfer(bytes),
                )
            },
            (Stage::PipesOpen { .. }, Event::PipeMissing) => (
                TranscodeJob { stage: Stage::Failed },
                Action::Fail(ServiceError::PipeUnavailable),
            ),
            (Stage::Transferring { written: Progress::Pending, read }, Event::InputWritten) => Self::settle(
                Progress::Done(()),
                read,
            ),
            (Stage::Transferring { written: Progress::Pending, read }, Event::InputFailed) => Self::settle(
                Progress::Failed,
                read,
            ),
            (
                Stage::Transferring { written, read: Progress::Pending },
                Event::OutputRead(output),
            ) => Self::settle(written, Progress::Done(output)),
            (Stage::Transferring { written, read: Progress::Pending }, Event::OutputFailed) => Self::settle(
                written,
                Progress::Failed,
            ),
            (Stage::Exited { output }, Event::Terminated(exit)) => match output {
                None => (TranscodeJob { stage: Stage::Failed }, Action::Fail(ServiceError::TransferError)),
                Some(bytes) => {
                    if exit.success() {
                        (TranscodeJob { stage: Stage::Succeeded }, Action::Deliver(bytes_from_vec(bytes)))
                    } else {
                        (
                            TranscodeJob { stage: Stage::Failed },
                            Action::Fail(ServiceError::TranscodeFailed),
                        )
                    }
                },
            },
            (stage, _) => (TranscodeJob { stage }, Action::Rejected),
        }
    }
}

} // verus!
