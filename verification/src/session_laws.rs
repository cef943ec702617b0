//! What holds of a session from the headers of a request to its reply,
//! whatever the request holds and whatever the driver reports.

use crate::body::StreamItem;
use crate::body::all_chunks;
use crate::body::collected;
use crate::body::joined;
use crate::body::lemma_body_over_limit_overflows;
use crate::body::lemma_chunks_are_collected_within_limit;
use crate::body::lemma_collected_body_is_joined_chunks;
use crate::body::lemma_failure_stays;
use crate::buffer::bytes_contents;
use crate::command::transcoder_command_line;
use crate::error::ServiceError;
use crate::format::AudioFormat;
use crate::job::Directive;
use crate::job::Event;
use crate::job::JobState;
use crate::job::ProcessExit;
use crate::job::transition;
use crate::limits::MAX_SIZE;
use crate::request::accepted_media_type;
use crate::request::request_verdict;
use crate::response::audio_reply;
use crate::response::error_reply;
use crate::session::Input;
use crate::session::Reaction;
use crate::session::SessionState;
use crate::session::opening;
use crate::session::session_step;
use vstd::prelude::*;
use vstd::utf8::encode_utf8;

verus! {

/// A request that is refused is answered at once with status 400, and the
/// session is closed: the body is never asked for.
pub proof fn lemma_refused_request_is_answered_at_once(
    format: AudioFormat,
    content_type: Option<Seq<char>>,
    content_length: Option<int>,
)
    requires
        request_verdict(content_type, content_length) is Err,
    ensures
        opening(format, content_type, content_length).0 == SessionState::Closed,
        opening(format, content_type, content_length).1 == Reaction::Reply(
            error_reply(request_verdict(content_type, content_length)->Err_0),
        ),
        opening(format, content_type, content_length).1->Reply_0.status == 400,
{
}

/// A request that lacks its content type or its content length is answered
/// with status 400.
pub proof fn lemma_missing_header_is_answered_400(
    format: AudioFormat,
    content_type: Option<Seq<char>>,
    content_length: Option<int>,
)
    requires
        content_type is None || content_length is None,
    ensures
        opening(format, content_type, content_length).0 == SessionState::Closed,
        opening(format, content_type, content_length).1 is Reply,
        opening(format, content_type, content_length).1->Reply_0.status == 400,
{
}

/// A request whose content type is not the accepted one is answered with
/// status 400.
pub proof fn lemma_other_media_type_is_answered_400(
    format: AudioFormat,
    content_type: Option<Seq<char>>,
    content_length: Option<int>,
)
    requires
        content_type != Some(accepted_media_type()),
    ensures
        opening(format, content_type, content_length).0 == SessionState::Closed,
        opening(format, content_type, content_length).1 is Reply,
        opening(format, content_type, content_length).1->Reply_0.status == 400,
{
}

/// A request that declares a length over the limit is answered with status
/// 400 before any of its body is read: the session is closed from the start
/// and never asks for the body.
pub proof fn lemma_declared_length_over_limit_is_answered_400(
    format: AudioFormat,
    content_type: Option<Seq<char>>,
    content_length: Option<int>,
)
    requires
        content_length is Some,
        content_length->Some_0 > MAX_SIZE,
    ensures
        opening(format, content_type, content_length).0 == SessionState::Closed,
        opening(format, content_type, content_length).1 is Reply,
        opening(format, content_type, content_length).1->Reply_0.status == 400,
        forall|input: Input| #[trigger]
            session_step(opening(format, content_type, content_length).0, input).1 == Reaction::Rejected,
{
}

/// An accepted request is not answered yet: its body is asked for.
pub proof fn lemma_accepted_request_is_read(
    format: AudioFormat,
    content_type: Option<Seq<char>>,
    content_length: Option<int>,
)
    requires
        request_verdict(content_type, content_length) is Ok,
    ensures
        opening(format, content_type, content_length) == (
            SessionState::Collecting { format, body: Seq::<u8>::empty() },
            Reaction::ReadBody,
        ),
{
}

/// A closed session stays closed and gives no second reply.
pub proof fn lemma_closed_session_rejects(input: Input)
    ensures
        session_step(SessionState::Closed, input) == (SessionState::Closed, Reaction::Rejected),
{
}

/// A chunk that takes the body over the limit ends the exchange with status
/// 400, whatever length the request declared.
pub proof fn lemma_overflowing_chunk_is_answered_400(format: AudioFormat, body: Seq<u8>, item: StreamItem)
    requires
        item is Chunk,
        body.len() + bytes_contents(item->Chunk_0).len() > MAX_SIZE,
    ensures
        session_step(SessionState::Collecting { format, body }, Input::Body(item)) == (
            SessionState::Closed,
            Reaction::Reply(error_reply(ServiceError::Overflow)),
        ),
        error_reply(ServiceError::Overflow).status == 400,
{
}

/// A fault of the transport while the body is read ends the exchange with
/// status 400.
pub proof fn lemma_stream_fault_is_answered_400(format: AudioFormat, body: Seq<u8>, item: StreamItem)
    requires
        item is Fault,
    ensures
        session_step(SessionState::Collecting { format, body }, Input::Body(item)).0
            == SessionState::Closed,
        session_step(SessionState::Collecting { format, body }, Input::Body(item)).1 is Reply,
        session_step(SessionState::Collecting { format, body }, Input::Body(item)).1->Reply_0.status
            == 400,
{
}

/// The clean end of the stream hands the collected body to a new job,
/// unchanged, be it empty or not.
pub proof fn lemma_collected_body_becomes_job_input(format: AudioFormat, body: Seq<u8>)
    ensures
        session_step(SessionState::Collecting { format, body }, Input::BodyEnd).0 == (
            SessionState::Transcoding { format, job: JobState::Spawning { input: body } }
        ),
        session_step(SessionState::Collecting { format, body }, Input::BodyEnd).1 is Drive,
        session_step(SessionState::Collecting { format, body }, Input::BodyEnd).1->Drive_0 is Spawn,
{
}

/// A transcoder that ends in any way but exit code zero is answered with
/// status 500 and the one fixed text, whether it wrote all of its output, a
/// part of it or nothing: no byte of what it wrote reaches the client.
pub proof fn lemma_unsuccessful_exit_is_answered_500(
    format: AudioFormat,
    output: Option<Seq<u8>>,
    exit: ProcessExit,
)
    requires
        !exit.is_success(),
    ensures
        ({
            let state = SessionState::Transcoding { format, job: JobState::Exited { output } };
            let next = session_step(state, Input::Process(Event::Terminated(exit)));
            &&& next.0 == SessionState::Closed
            &&& next.1 is Reply
            &&& next.1->Reply_0.status == 500
            &&& next.1->Reply_0.body == encode_utf8("Internal Server Error"@)
        }),
{
}

/// Every failure of the transcoder job is answered with status 500 and the
/// one fixed text.
pub proof fn lemma_job_failure_is_answered_500(format: AudioFormat, job: JobState, event: Event)
    requires
        transition(job, event).1 is Fail,
    ensures
        ({
            let next = session_step(SessionState::Transcoding { format, job }, Input::Process(event));
            &&& next.0 == SessionState::Closed
            &&& next.1 is Reply
            &&& next.1->Reply_0.status == 500
            &&& next.1->Reply_0.body == encode_utf8("Internal Server Error"@)
        }),
{
}

/// A reply with status 200 is given in one case only: the input was written,
/// the output was read, and the transcoder then ended with exit code zero.
/// Its body is what was read, byte for byte, and its label is that of the
/// format the request asked for.
pub proof fn lemma_success_reply_is_the_output(state: SessionState, input: Input)
    requires
        session_step(state, input).1 is Reply,
        session_step(state, input).1->Reply_0.status == 200,
    ensures
        state is Transcoding,
        state->job is Exited,
        state->job->output is Some,
        input == Input::Process(Event::Terminated(ProcessExit::Exited(0))),
        session_step(state, input).1->Reply_0 == audio_reply(
            state->job->output->Some_0,
            state->Transcoding_format,
        ),
        session_step(state, input).0 == SessionState::Closed,
{
}

/// Every reply has status 200, 400 or 500, and the session that gave it is
/// closed.
pub proof fn lemma_reply_closes_session(state: SessionState, input: Input)
    requires
        session_step(state, input).1 is Reply,
    ensures
        session_step(state, input).0 == SessionState::Closed,
        session_step(state, input).1->Reply_0.status == 200 || session_step(
            state,
            input,
        ).1->Reply_0.status == 400 || session_step(state, input).1->Reply_0.status == 500,
{
}

/// What the driver is asked to do for the job is never a delivery, a failure
/// or a rejection: those are turned into a reply or a rejection by the
/// session itself.
pub proof fn lemma_driven_actions_are_work(state: SessionState, input: Input)
    requires
        session_step(state, input).1 is Drive,
    ensures
        !(session_step(state, input).1->Drive_0 is Deliver),
        !(session_step(state, input).1->Drive_0 is Fail),
        !(session_step(state, input).1->Drive_0 is Rejected),
{
}

/// The state of a session after a run of inputs, and the reactions it gave,
/// one for each input.
pub open spec fn session_trace(state: SessionState, inputs: Seq<Input>) -> (SessionState, Seq<Reaction>)
    decreases inputs.len(),
{
    if inputs.len() == 0 {
        (state, Seq::empty())
    } else {
        let before = session_trace(state, inputs.drop_last());
        let step = session_step(before.0, inputs.last());
        (step.0, before.1.push(step.1))
    }
}

/// The items of a stream as the inputs by which they are reported.
pub open spec fn body_inputs(items: Seq<StreamItem>) -> Seq<Input> {
    Seq::new(items.len(), |i: int| Input::Body(items[i]))
}

/// The number of items at the head of a stream that are collected before
/// the first one fails; all of them, if none fails.
pub open spec fn accepted_count(items: Seq<StreamItem>) -> int
    decreases items.len(),
{
    if items.len() == 0 || collected(items) is Ok {
        items.len() as int
    } else {
        accepted_count(items.drop_last())
    }
}

/// The reaction to the item at `index` of a stream: the next item is asked
/// for as long as none has failed; the first that fails is answered with the
/// reply for its error; whatever is reported after that is rejected.
pub open spec fn body_reaction(items: Seq<StreamItem>, index: int) -> Reaction {
    if index < accepted_count(items) {
        Reaction::ReadBody
    } else if index == accepted_count(items) {
        Reaction::Reply(error_reply(collected(items)->Err_0))
    } else {
        Reaction::Rejected
    }
}

/// Where a session stands after a stream of items: still collecting what
/// the stream has brought, or closed by the first item that failed.
pub open spec fn after_body(format: AudioFormat, items: Seq<StreamItem>) -> SessionState {
    match collected(items) {
        Ok(body) => SessionState::Collecting { format, body },
        Err(_) => SessionState::Closed,
    }
}

/// A trace that is one input longer ends with the step on that input.
pub proof fn lemma_trace_one_more(state: SessionState, inputs: Seq<Input>, input: Input)
    ensures
        session_trace(state, inputs.push(input)) == (
            session_step(session_trace(state, inputs).0, input).0,
            session_trace(state, inputs).1.push(session_step(session_trace(state, inputs).0, input).1),
        ),
{
    assert(inputs.push(input).drop_last() =~= inputs);
}

/// A trace over two runs of inputs, one after the other, is the trace of the
/// first followed by the trace of the second from where the first ended.
pub proof fn lemma_trace_in_two_parts(state: SessionState, first: Seq<Input>, second: Seq<Input>)
    ensures
        session_trace(state, first + second) == (
            session_trace(session_trace(state, first).0, second).0,
            session_trace(state, first).1 + session_trace(session_trace(state, first).0, second).1,
        ),
    decreases second.len(),
{
    let middle = session_trace(state, first).0;
    if second.len() == 0 {
        assert(first + second =~= first);
        assert(session_trace(state, first).1 + Seq::<Reaction>::empty() =~= session_trace(state, first).1);
    } else {
        lemma_trace_in_two_parts(state, first, second.drop_last());
        assert((first + second).drop_last() =~= first + second.drop_last());
        assert((first + second).last() == second.last());
        let shorter = session_trace(middle, second.drop_last());
        let step = session_step(shorter.0, second.last());
        assert((session_trace(state, first).1 + shorter.1).push(step.1) =~= session_trace(state, first).1
            + shorter.1.push(step.1));
    }
}

/// In a stream that fails, the item that fails comes after the accepted
/// ones, so there are fewer of those than items.
proof fn lemma_accepted_count_is_first_failure(items: Seq<StreamItem>)
    requires
        collected(items) is Err,
    ensures
        0 <= accepted_count(items) < items.len(),
    decreases items.len(),
{
    let before = items.drop_last();
    assert(accepted_count(items) == accepted_count(before));
    if before.len() > 0 && collected(before) is Err {
        lemma_accepted_count_is_first_failure(before);
    } else {
        assert(accepted_count(before) == before.len());
    }
}

/// A failure among the first items is the failure of the whole stream, and
/// as many items are accepted before it.
proof fn lemma_accepted_count_of_failed(items: Seq<StreamItem>)
    requires
        items.len() > 0,
        collected(items.drop_last()) is Err,
    ensures
        collected(items) == collected(items.drop_last()),
        accepted_count(items) == accepted_count(items.drop_last()),
        0 <= accepted_count(items) < items.len() - 1,
{
    lemma_accepted_count_is_first_failure(items.drop_last());
}

/// While the body of an accepted request is read, the session follows the
/// collection of the stream item by item: it asks for the next item as long
/// as none has failed, answers the first failure with the reply for its
/// error, and is closed from then on.
pub proof fn lemma_session_follows_the_stream(format: AudioFormat, items: Seq<StreamItem>)
    ensures
        session_trace(
            SessionState::Collecting { format, body: Seq::<u8>::empty() },
            body_inputs(items),
        ) == (after_body(format, items), Seq::new(items.len(), |i: int| body_reaction(items, i))),
    decreases items.len(),
{
    let start = SessionState::Collecting { format, body: Seq::<u8>::empty() };
    let reactions = Seq::new(items.len(), |i: int| body_reaction(items, i));
    if items.len() == 0 {
        assert(body_inputs(items) =~= Seq::<Input>::empty());
        assert(reactions =~= Seq::<Reaction>::empty());
    } else {
        let before = items.drop_last();
        let earlier = Seq::new(before.len(), |i: int| body_reaction(before, i));
        lemma_session_follows_the_stream(format, before);
        assert(body_inputs(items) =~= body_inputs(before).push(Input::Body(items.last())));
        lemma_trace_one_more(start, body_inputs(before), Input::Body(items.last()));
        let step = session_step(after_body(format, before), Input::Body(items.last()));
        if collected(before) is Err {
            lemma_accepted_count_of_failed(items);
        } else {
            assert(accepted_count(before) == before.len());
        }
        assert(reactions =~= earlier.push(step.1));
    }
}

/// A request whose body turns out to hold more than the limit is answered
/// with status 400 for the overflow, whatever length it declared and
/// however the body is cut into chunks; nothing that is reported after the
/// chunk that went over the limit is looked at.
pub proof fn lemma_body_over_limit_is_answered_400(format: AudioFormat, items: Seq<StreamItem>, n: int)
    requires
        0 <= n <= items.len(),
        all_chunks(items.take(n)),
        joined(items.take(n)).len() > MAX_SIZE,
    ensures
        ({
            let trace = session_trace(
                SessionState::Collecting { format, body: Seq::<u8>::empty() },
                body_inputs(items),
            );
            let failed = accepted_count(items);
            &&& trace.0 == SessionState::Closed
            &&& 0 <= failed < n
            &&& trace.1.len() == items.len()
            &&& trace.1[failed] == Reaction::Reply(error_reply(ServiceError::Overflow))
            &&& error_reply(ServiceError::Overflow).status == 400
            &&& forall|i: int| 0 <= i < failed ==> trace.1[i] == Reaction::ReadBody
            &&& forall|i: int| failed < i < items.len() ==> trace.1[i] == Reaction::Rejected
        }),
{
    lemma_body_over_limit_overflows(items, n);
    lemma_session_follows_the_stream(format, items);
    lemma_chunks_are_collected_within_limit(items.take(n));
    lemma_accepted_count_within(items, n);
}

/// If the first `n` items of a stream fail to be collected, fewer than `n`
/// items are accepted.
proof fn lemma_accepted_count_within(items: Seq<StreamItem>, n: int)
    requires
        0 <= n <= items.len(),
        collected(items.take(n)) is Err,
    ensures
        0 <= accepted_count(items) < n,
    decreases items.len(),
{
    if n == items.len() {
        assert(items.take(n) =~= items);
        lemma_accepted_count_is_first_failure(items);
    } else {
        assert(items.drop_last().take(n) =~= items.take(n));
        lemma_accepted_count_within(items.drop_last(), n);
        lemma_failure_stays(items.drop_last(), n);
        lemma_accepted_count_of_failed(items);
    }
}

/// An exchange in which nothing goes wrong, from the first chunk to the
/// reply: the body is read chunk by chunk; the transcoder is started with
/// the command line for the format; it is handed the bytes of the chunks,
/// joined in order and otherwise unchanged, which are no more than the limit;
/// its output, unchanged, is the body of the reply, which has status 200 and
/// the label of the format.
pub proof fn lemma_untroubled_exchange(
    format: AudioFormat,
    items: Seq<StreamItem>,
    output: Vec<u8>,
    write_first: bool,
)
    requires
        collected(items) is Ok,
    ensures
        ({
            let (first, second) = if write_first {
                (Event::InputWritten, Event::OutputRead(output))
            } else {
                (Event::OutputRead(output), Event::InputWritten)
            };
            let process = seq![
                Input::BodyEnd,
                Input::Process(Event::Spawned),
                Input::Process(Event::PipesReady),
                Input::Process(first),
                Input::Process(second),
                Input::Process(Event::Terminated(ProcessExit::Exited(0))),
            ];
            let trace = session_trace(
                SessionState::Collecting { format, body: Seq::<u8>::empty() },
                body_inputs(items) + process,
            );
            &&& joined(items).len() <= MAX_SIZE
            &&& trace.0 == SessionState::Closed
            &&& trace.1 == Seq::new(items.len(), |i: int| Reaction::ReadBody) + seq![
                Reaction::Drive(Directive::Spawn(transcoder_command_line(format))),
                Reaction::Drive(Directive::OpenPipes),
                Reaction::Drive(Directive::Transfer(joined(items))),
                Reaction::Drive(Directive::Await),
                Reaction::Drive(Directive::AwaitExit),
                Reaction::Reply(audio_reply(output@, format)),
            ]
        }),
{
    let (first, second) = if write_first {
        (Event::InputWritten, Event::OutputRead(output))
    } else {
        (Event::OutputRead(output), Event::InputWritten)
    };
    let start = SessionState::Collecting { format, body: Seq::<u8>::empty() };
    let i0 = Input::BodyEnd;
    let i1 = Input::Process(Event::Spawned);
    let i2 = Input::Process(Event::PipesReady);
    let i3 = Input::Process(first);
    let i4 = Input::Process(second);
    let i5 = Input::Process(Event::Terminated(ProcessExit::Exited(0)));
    let process = seq![i0, i1, i2, i3, i4, i5];
    lemma_session_follows_the_stream(format, items);
    lemma_collected_body_is_joined_chunks(items);
    lemma_trace_in_two_parts(start, body_inputs(items), process);
    let collecting = after_body(format, items);
    let none = Seq::<Input>::empty();
    lemma_trace_one_more(collecting, none, i0);
    assert(none.push(i0) =~= seq![i0]);
    lemma_trace_one_more(collecting, seq![i0], i1);
    assert(seq![i0].push(i1) =~= seq![i0, i1]);
    lemma_trace_one_more(collecting, seq![i0, i1], i2);
    assert(seq![i0, i1].push(i2) =~= seq![i0, i1, i2]);
    lemma_trace_one_more(collecting, seq![i0, i1, i2], i3);
    assert(seq![i0, i1, i2].push(i3) =~= seq![i0, i1, i2, i3]);
    lemma_trace_one_more(collecting, seq![i0, i1, i2, i3], i4);
    assert(seq![i0, i1, i2, i3].push(i4) =~= seq![i0, i1, i2, i3, i4]);
    lemma_trace_one_more(collecting, seq![i0, i1, i2, i3, i4], i5);
    assert(seq![i0, i1, i2, i3, i4].push(i5) =~= process);
    let reactions = seq![
        Reaction::Drive(Directive::Spawn(transcoder_command_line(format))),
        Reaction::Drive(Directive::OpenPipes),
        Reaction::Drive(Directive::Transfer(joined(items))),
        Reaction::Drive(Directive::Await),
        Reaction::Drive(Directive::AwaitExit),
        Reaction::Reply(audio_reply(output@, format)),
    ];
    assert(session_trace(collecting, process).1 =~= reactions);
    assert(Seq::new(items.len(), |i: int| body_reaction(items, i)) =~= Seq::new(
        items.len(),
        |i: int| Reaction::ReadBody,
    ));
}

/// A closed session rejects whatever is reported to it, however much that
/// is.
pub proof fn lemma_closed_session_stays_closed(inputs: Seq<Input>)
    ensures
        session_trace(SessionState::Closed, inputs) == (
            SessionState::Closed,
            Seq::new(inputs.len(), |i: int| Reaction::Rejected),
        ),
    decreases inputs.len(),
{
    let rejected = Seq::new(inputs.len(), |i: int| Reaction::Rejected);
    if inputs.len() == 0 {
        assert(rejected =~= Seq::<Reaction>::empty());
    } else {
        lemma_closed_session_stays_closed(inputs.drop_last());
        assert(rejected =~= Seq::new(inputs.drop_last().len(), |i: int| Reaction::Rejected).push(
            Reaction::Rejected,
        ));
    }
}

/// The body of a refused request is never asked for and no transcoder is
/// ever started for it, whatever the driver does after the reply.
pub proof fn lemma_refused_request_reads_nothing(
    format: AudioFormat,
    content_type: Option<Seq<char>>,
    content_length: Option<int>,
    inputs: Seq<Input>,
)
    requires
        request_verdict(content_type, content_length) is Err,
    ensures
        opening(format, content_type, content_length).1 is Reply,
        session_trace(opening(format, content_type, content_length).0, inputs).0 == SessionState::Closed,
        forall|i: int|
            0 <= i < inputs.len() ==> #[trigger] session_trace(
                opening(format, content_type, content_length).0,
                inputs,
            ).1[i] == Reaction::Rejected,
{
    lemma_closed_session_stays_closed(inputs);
}

/// The body is asked for only while it is being collected, and only after
/// a chunk that fitted within the limit.
pub proof fn lemma_body_is_read_while_it_fits(state: SessionState, input: Input)
    requires
        session_step(state, input).1 is ReadBody,
    ensures
        state is Collecting,
        input is Body,
        input->Body_0 is Chunk,
        state->body.len() + bytes_contents(input->Body_0->Chunk_0).len() <= MAX_SIZE,
        session_step(state, input).0 == (SessionState::Collecting {
            format: state->Collecting_format,
            body: state->body + bytes_contents(input->Body_0->Chunk_0),
        }),
{
}

/// A transcoder is started in one case only: the stream of an accepted
/// request ended cleanly. A request whose upload was cut short never
/// reaches the transcoder.
pub proof fn lemma_job_starts_after_clean_end(state: SessionState, input: Input)
    requires
        session_step(state, input).1 is Drive,
        session_step(state, input).1->Drive_0 is Spawn,
    ensures
        state is Collecting,
        input is BodyEnd,
        session_step(state, input).1->Drive_0 == Directive::Spawn(
            transcoder_command_line(state->Collecting_format),
        ),
        session_step(state, input).0 == (SessionState::Transcoding {
            format: state->Collecting_format,
            job: JobState::Spawning { input: state->body },
        }),
{
}

} // verus!
