//! One request from its headers to its reply: validation, then the
//! collection of the body, then the transcoder job, then the reply. Each
//! stage ends the exchange with an error reply as soon as it fails.

use crate::body::BodyCollector;
use crate::body::StreamItem;
use crate::body::after_item;
use crate::format::AudioFormat;
use crate::job::Action;
use crate::job::Directive;
use crate::job::Event;
use crate::job::JobState;
use crate::job::TranscodeJob;
use crate::job::beginning;
use crate::job::transition;
use crate::request::check_request;
use crate::request::declared_length;
use crate::request::declared_type;
use crate::request::request_verdict;
use crate::response::Reply;
use crate::response::Response;
use crate::response::audio_reply;
use crate::response::audio_response;
use crate::response::error_reply;
use crate::response::error_response;
use vstd::prelude::*;

verus! {

/// What the driver reports to a session.
#[derive(Debug)]
pub enum Input {
    /// The inbound stream yielded this item.
    Body(StreamItem),
    /// The inbound stream ended cleanly.
    BodyEnd,
    /// This happened to the transcoder process.
    Process(Event),
}

/// What a session asks of the driver.
#[derive(Debug)]
pub enum Output {
    /// Read the next item of the inbound stream and report it.
    ReadBody,
    /// Do this for the transcoder job and report what happened.
    Drive(Action),
    /// Send this reply; the exchange is over.
    Reply(Response),
    /// The input does not belong to the stage the session is in; the session
    /// is as it was.
    Rejected,
}

/// An output with the bytes and the text it carries.
pub enum Reaction {
    ReadBody,
    Drive(Directive),
    Reply(Reply),
    Rejected,
}

impl View for Output {
    type V = Reaction;

    open spec fn view(&self) -> Reaction {
        match *self {
            Output::ReadBody => Reaction::ReadBody,
            Output::Drive(action) => Reaction::Drive(action@),
            Output::Reply(response) => Reaction::Reply(response@),
            Output::Rejected => Reaction::Rejected,
        }
    }
}

/// The state of a session.
pub enum SessionState {
    /// The headers were accepted and the body is being read; `body` is what
    /// has arrived.
    Collecting { format: AudioFormat, body: Seq<u8> },
    /// The body is complete and the transcoder job is under way.
    Transcoding { format: AudioFormat, job: JobState },
    /// The reply was given.
    Closed,
}

/// How a session begins: a request whose declarations are refused is
/// answered at once and its body is never asked for; otherwise the first
/// thing to do is to read the body.
pub open spec fn opening(
    format: AudioFormat,
    content_type: Option<Seq<char>>,
    content_length: Option<int>,
) -> (SessionState, Reaction) {
    match request_verdict(content_type, content_length) {
        Ok(_) => (SessionState::Collecting { format, body: Seq::empty() }, Reaction::ReadBody),
        Err(error) => (SessionState::Closed, Reaction::Reply(error_reply(error))),
    }
}

/// What a step of the transcoder job means for the session: a delivery or a
/// failure ends the exchange with the reply for it; anything else is passed
/// on to the driver.
pub open spec fn after_job_step(
    format: AudioFormat,
    before: JobState,
    step: (JobState, Directive),
) -> (SessionState, Reaction) {
    match step.1 {
        Directive::Deliver(output) => (SessionState::Closed, Reaction::Reply(audio_reply(output, format))),
        Directive::Fail(error) => (SessionState::Closed, Reaction::Reply(error_reply(error))),
        Directive::Rejected => (SessionState::Transcoding { format, job: before }, Reaction::Rejected),
        directive => (SessionState::Transcoding { format, job: step.0 }, Reaction::Drive(directive)),
    }
}

/// The state that follows `state` on `input`, and what the driver is to do.
pub open spec fn session_step(state: SessionState, input: Input) -> (SessionState, Reaction) {
    match (state, input) {
        (SessionState::Collecting { format, body }, Input::Body(item)) => match after_item(body, item) {
            Ok(longer) => (SessionState::Collecting { format, body: longer }, Reaction::ReadBody),
            Err(error) => (SessionState::Closed, Reaction::Reply(error_reply(error))),
        },
        (SessionState::Collecting { format, body }, Input::BodyEnd) => (
            SessionState::Transcoding { format, job: beginning(body, format).0 },
            Reaction::Drive(beginning(body, format).1),
        ),
        (SessionState::Transcoding { format, job }, Input::Process(event)) => after_job_step(
            format,
            job,
            transition(job, event),
        ),
        _ => (state, Reaction::Rejected),
    }
}

enum Stage {
    Collecting { format: AudioFormat, collector: BodyCollector },
    Transcoding { format: AudioFormat, job: TranscodeJob },
    Closed,
}

/// The handling of one request.
pub struct Session {
    stage: Stage,
}

impl View for Session {
    type V = SessionState;

    closed spec fn view(&self) -> SessionState {
        match self.stage {
            Stage::Collecting { format, collector } => SessionState::Collecting { format, body: collector@ },
            Stage::Transcoding { format, job } => SessionState::Transcoding { format, job: job@ },
            Stage::Closed => SessionState::Closed,
        }
    }
}

impl Session {
    /// Opens the session for a request that asks for `format` and declares
    /// this content type and content length, each of which may be absent.
    pub fn open(format: AudioFormat, content_type: Option<&str>, content_length: Option<usize>) -> (opened:
        (Self, Output))
        ensures
            (opened.0@, opened.1@) == opening(
                format,
                declared_type(content_type),
                declared_length(content_length),
            ),
    {
        match check_request(content_type, content_length) {
            Ok(_) => (
                Session { stage: Stage::Collecting { format, collector: BodyCollector::new() } },
                Output::ReadBody,
            ),
            Err(error) => (Session { stage: Stage::Closed }, Output::Reply(error_response(&error))),
        }
    }

    /// Whether the reply was given.
    pub fn is_closed(&self) -> (closed: bool)
        ensures
            closed == (self@ is Closed),
    {
        match self.stage {
            Stage::Closed => true,
            _ => false,
        }
    }

    /// Takes the session one step on: `input` is what the driver saw, the
    /// result is the session after it and what the driver is to do next.
    pub fn step(self, input: Input) -> (next: (Self, Output))
        ensures
            (next.0@, next.1@) == session_step(self@, input),
    {
        match (self.stage, input) {
            (Stage::Collecting { format, collector }, Input::Body(item)) => {
                let mut collector = collector;
                match collector.accept(&item) {
                    Ok(_) => (Session { stage: Stage::Collecting { format, collector } }, Output::ReadBody),
                    Err(error) => (Session { stage: Stage::Closed }, Output::Reply(error_response(&error))),
                }
            },
            (Stage::Collecting { format, collector }, Input::BodyEnd) => {
                let (job, action) = TranscodeJob::start(collector.finish(), format);
                (Session { stage: Stage::Transcoding { format, job } }, Output::Drive(action))
            },
            (Stage::Transcoding { format, job }, Input::Process(event)) => {
                let (job, action) = job.step(event);
                match action {
                    Action::Deliver(output) => (
                        Session { stage: Stage::Closed },
                        Output::Reply(audio_response(output, format)),
                    ),
                    Action::Fail(error) => (
                        Session { stage: Stage::Closed },
                        Output::Reply(error_response(&error)),
                    ),
                    Action::Rejected => (Session { stage: Stage::Transcoding { format, job } }, Output::Rejected),
                    action => (Session { stage: Stage::Transcoding { format, job } }, Output::Drive(action)),
                }
            },
            (stage, _) => (Session { stage }, Output::Rejected),
        }
    }
}

} // verus!
