use bytes::Bytes;
use ogg_transcoder::command::transcoder_command;
use ogg_transcoder::error::ServiceError;
use ogg_transcoder::format::AudioFormat;
use ogg_transcoder::job::Action;
use ogg_transcoder::job::Event;
use ogg_transcoder::job::ProcessExit;
use ogg_transcoder::job::TranscodeJob;

fn begin(input: &[u8]) -> TranscodeJob {
    let (job, action) = TranscodeJob::start(Bytes::from(input.to_vec()), AudioFormat::Wav);
    assert!(matches!(action, Action::Spawn(_)));
    job
}

fn transferring(input: &[u8]) -> TranscodeJob {
    let (job, action) = begin(input).step(Event::Spawned);
    assert!(matches!(action, Action::OpenPipes));
    let (job, action) = job.step(Event::PipesReady);
    match action {
        Action::Transfer(bytes) => assert_eq!(bytes, input.to_vec()),
        other => panic!("{:?}", other),
    }
    job
}

fn awaiting_exit(input: &[u8], output: &[u8]) -> TranscodeJob {
    let (job, action) = transferring(input).step(Event::InputWritten);
    assert!(matches!(action, Action::Await));
    let (job, action) = job.step(Event::OutputRead(output.to_vec()));
    assert!(matches!(action, Action::AwaitExit));
    job
}

#[test]
fn command_for_wav() {
    let command = transcoder_command(AudioFormat::Wav);
    assert_eq!(command.program, "/usr/bin/ffmpeg");
    assert_eq!(
        command.arguments,
        vec!["-i", "pipe:0", "-codec:a", "libmp3lame", "-loglevel", "error", "-f", "wav", "pipe:1"]
    );
}

#[test]
fn command_for_mp3() {
    let command = transcoder_command(AudioFormat::Mp3);
    assert_eq!(command.program, "/usr/bin/ffmpeg");
    assert_eq!(
        command.arguments,
        vec!["-i", "pipe:0", "-codec:a", "libmp3lame", "-loglevel", "error", "-f", "mp3", "pipe:1"]
    );
}

#[test]
fn job_begins_by_spawning_the_command() {
    let (job, action) = TranscodeJob::start(Bytes::from(vec![1u8, 2]), AudioFormat::Mp3);
    assert!(!job.is_over());
    match action {
        Action::Spawn(command) => {
            assert_eq!(command.program, "/usr/bin/ffmpeg");
            assert_eq!(command.arguments, transcoder_command(AudioFormat::Mp3).arguments);
            assert_eq!(command.arguments[7], "mp3");
        }
        other => panic!("{:?}", other),
    }
}

#[test]
fn exit_code_zero_is_the_only_success() {
    assert!(ProcessExit::Exited(0).success());
    assert!(!ProcessExit::Exited(1).success());
    assert!(!ProcessExit::Exited(255).success());
    assert!(!ProcessExit::Exited(u32::MAX).success());
    assert!(!ProcessExit::Signaled(0).success());
    assert!(!ProcessExit::Signaled(9).success());
    assert!(!ProcessExit::Other(0).success());
    assert!(!ProcessExit::Undetermined.success());
}

#[test]
fn untroubled_job_delivers_the_output() {
    let job = awaiting_exit(b"OggS input", b"RIFF output");
    assert!(!job.is_over());
    let (job, action) = job.step(Event::Terminated(ProcessExit::Exited(0)));
    assert!(job.is_over());
    match action {
        Action::Deliver(output) => assert_eq!(output.to_vec(), b"RIFF output".to_vec()),
        other => panic!("{:?}", other),
    }
}

#[test]
fn output_may_be_read_before_the_input_is_written() {
    let (job, action) = transferring(b"in").step(Event::OutputRead(b"out".to_vec()));
    assert!(matches!(action, Action::Await));
    let (job, action) = job.step(Event::InputWritten);
    assert!(matches!(action, Action::AwaitExit));
    let (_, action) = job.step(Event::Terminated(ProcessExit::Exited(0)));
    match action {
        Action::Deliver(output) => assert_eq!(output.to_vec(), b"out".to_vec()),
        other => panic!("{:?}", other),
    }
}

#[test]
fn empty_input_and_empty_output_pass_through() {
    let job = awaiting_exit(b"", b"");
    let (_, action) = job.step(Event::Terminated(ProcessExit::Exited(0)));
    match action {
        Action::Deliver(output) => assert!(output.is_empty()),
        other => panic!("{:?}", other),
    }
}

#[test]
fn large_input_is_handed_over_whole() {
    let input: Vec<u8> = (0..(1usize << 21)).map(|i| (i % 251) as u8).collect();
    let output: Vec<u8> = (0..(1usize << 21)).map(|i| (i % 241) as u8).collect();
    let job = awaiting_exit(&input, &output);
    let (_, action) = job.step(Event::Terminated(ProcessExit::Exited(0)));
    match action {
        Action::Deliver(bytes) => assert_eq!(bytes.to_vec(), output),
        other => panic!("{:?}", other),
    }
}

#[test]
fn spawn_failure_fails_the_job() {
    let (job, action) = begin(b"in").step(Event::SpawnFailed);
    assert!(job.is_over());
    match action {
        Action::Fail(error) => assert_eq!(error, ServiceError::SpawnError),
        other => panic!("{:?}", other),
    }
}

#[test]
fn missing_pipe_fails_the_job() {
    let (job, _) = begin(b"in").step(Event::Spawned);
    let (job, action) = job.step(Event::PipeMissing);
    assert!(job.is_over());
    match action {
        Action::Fail(error) => assert_eq!(error, ServiceError::PipeUnavailable),
        other => panic!("{:?}", other),
    }
}

#[test]
fn failed_write_is_a_transfer_error_once_the_exit_is_known() {
    let (job, action) = transferring(b"in").step(Event::InputFailed);
    assert!(matches!(action, Action::Await));
    let (job, action) = job.step(Event::OutputRead(b"partial".to_vec()));
    assert!(matches!(action, Action::AwaitExit));
    assert!(!job.is_over());
    let (job, action) = job.step(Event::Terminated(ProcessExit::Exited(0)));
    assert!(job.is_over());
    match action {
        Action::Fail(error) => assert_eq!(error, ServiceError::TransferError),
        other => panic!("{:?}", other),
    }
}

#[test]
fn failed_read_is_a_transfer_error_once_the_exit_is_known() {
    let (job, action) = transferring(b"in").step(Event::OutputFailed);
    assert!(matches!(action, Action::Await));
    let (job, action) = job.step(Event::InputWritten);
    assert!(matches!(action, Action::AwaitExit));
    let (_, action) = job.step(Event::Terminated(ProcessExit::Exited(1)));
    match action {
        Action::Fail(error) => assert_eq!(error, ServiceError::TransferError),
        other => panic!("{:?}", other),
    }
}

#[test]
fn both_movements_may_fail() {
    let (job, action) = transferring(b"in").step(Event::OutputFailed);
    assert!(matches!(action, Action::Await));
    let (job, action) = job.step(Event::InputFailed);
    assert!(matches!(action, Action::AwaitExit));
    let (_, action) = job.step(Event::Terminated(ProcessExit::Signaled(13)));
    match action {
        Action::Fail(error) => assert_eq!(error, ServiceError::TransferError),
        other => panic!("{:?}", other),
    }
}

#[test]
fn non_zero_exit_discards_the_output() {
    for exit in [
        ProcessExit::Exited(1),
        ProcessExit::Exited(69),
        ProcessExit::Signaled(9),
        ProcessExit::Other(-1),
        ProcessExit::Undetermined,
    ] {
        for output in [&b""[..], &b"partial output"[..]] {
            let (job, action) = awaiting_exit(b"garbage", output).step(Event::Terminated(exit));
            assert!(job.is_over());
            match action {
                Action::Fail(error) => {
                    assert_eq!(error, ServiceError::TranscodeFailed);
                    assert_eq!(error.status(), 500);
                }
                other => panic!("{:?}", other),
            }
        }
    }
}

#[test]
fn events_out_of_turn_are_rejected() {
    let (job, action) = begin(b"in").step(Event::PipesReady);
    assert!(matches!(action, Action::Rejected));
    let (job, action) = job.step(Event::Terminated(ProcessExit::Exited(0)));
    assert!(matches!(action, Action::Rejected));
    let (job, action) = job.step(Event::OutputRead(vec![1u8]));
    assert!(matches!(action, Action::Rejected));
    assert!(!job.is_over());
    let (job, action) = job.step(Event::Spawned);
    assert!(matches!(action, Action::OpenPipes));
    let (job, action) = job.step(Event::Spawned);
    assert!(matches!(action, Action::Rejected));
    let (job, action) = job.step(Event::InputWritten);
    assert!(matches!(action, Action::Rejected));
    let (_, action) = job.step(Event::PipesReady);
    match action {
        Action::Transfer(bytes) => assert_eq!(bytes, b"in".to_vec()),
        other => panic!("{:?}", other),
    }
}

#[test]
fn a_movement_ends_once() {
    let (job, _) = transferring(b"in").step(Event::InputWritten);
    let (job, action) = job.step(Event::InputFailed);
    assert!(matches!(action, Action::Rejected));
    let (job, action) = job.step(Event::InputWritten);
    assert!(matches!(action, Action::Rejected));
    let (job, action) = job.step(Event::Terminated(ProcessExit::Exited(0)));
    assert!(matches!(action, Action::Rejected));
    let (job, action) = job.step(Event::OutputRead(b"first".to_vec()));
    assert!(matches!(action, Action::AwaitExit));
    let (job, action) = job.step(Event::OutputRead(b"second".to_vec()));
    assert!(matches!(action, Action::Rejected));
    let (_, action) = job.step(Event::Terminated(ProcessExit::Exited(0)));
    match action {
        Action::Deliver(output) => assert_eq!(output.to_vec(), b"first".to_vec()),
        other => panic!("{:?}", other),
    }
}

#[test]
fn a_job_that_is_over_rejects_everything() {
    let (done, _) = awaiting_exit(b"in", b"out").step(Event::Terminated(ProcessExit::Exited(0)));
    let (failed, _) = begin(b"in").step(Event::SpawnFailed);
    let mut jobs = vec![done, failed];
    while let Some(mut job) = jobs.pop() {
        for event in [
            Event::Spawned,
            Event::SpawnFailed,
            Event::PipesReady,
            Event::PipeMissing,
            Event::InputWritten,
            Event::InputFailed,
            Event::OutputRead(vec![1u8]),
            Event::OutputFailed,
            Event::Terminated(ProcessExit::Exited(0)),
        ] {
            let (next, action) = job.step(event);
            assert!(matches!(action, Action::Rejected));
            assert!(next.is_over());
            job = next;
        }
    }
}
