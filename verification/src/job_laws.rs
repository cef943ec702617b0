//! What holds of a transcoder job, whatever its input and whatever the
//! driver reports.

use crate::command::transcoder_command_line;
use crate::error::ServiceError;
use crate::format::AudioFormat;
use crate::job::Directive;
use crate::job::Event;
use crate::job::JobState;
use crate::job::ProcessExit;
use crate::job::Progress;
use crate::job::beginning;
use crate::job::transition;
use vstd::prelude::*;

verus! {

/// Every way in which a job can fail is a fault of the service: the reply
/// has status 500 and the one fixed text.
pub proof fn lemma_job_failure_is_server_fault(state: JobState, event: Event)
    requires
        transition(state, event).1 is Fail,
    ensures
        transition(state, event).0 == JobState::Failed,
        !transition(state, event).1->Fail_0.is_client_fault(),
        transition(state, event).1->Fail_0.spec_status() == 500,
        transition(state, event).1->Fail_0.spec_message() == "Internal Server Error"@,
{
}

/// A process that ends in any way but exit code zero fails the job, whether
/// it wrote all of its output, a part of it or nothing; none of what was
/// read is handed on.
pub proof fn lemma_unsuccessful_exit_fails(output: Option<Seq<u8>>, exit: ProcessExit)
    requires
        !exit.is_success(),
    ensures
        transition(JobState::Exited { output }, Event::Terminated(exit)).0 == JobState::Failed,
        transition(JobState::Exited { output }, Event::Terminated(exit)).1 is Fail,
        output is Some ==> transition(JobState::Exited { output }, Event::Terminated(exit)).1
            == Directive::Fail(ServiceError::TranscodeFailed),
        transition(JobState::Exited { output }, Event::Terminated(exit)).1->Fail_0.spec_status() == 500,
{
}

/// Output is delivered in one case only: both data movements went well and
/// the process then ended with exit code zero. What is delivered is what was
/// read, byte for byte.
pub proof fn lemma_delivery_is_what_was_read(state: JobState, event: Event)
    requires
        transition(state, event).1 is Deliver,
    ensures
        state == (JobState::Exited { output: Some(transition(state, event).1->Deliver_0) }),
        event == Event::Terminated(ProcessExit::Exited(0)),
        transition(state, event).0 == JobState::Succeeded,
{
}

/// The bytes handed to the process are the input of the job, byte for byte,
/// and they are handed out once: when the pipes are ready.
pub proof fn lemma_transfer_hands_out_the_input(state: JobState, event: Event)
    requires
        transition(state, event).1 is Transfer,
    ensures
        state == (JobState::PipesOpen { input: transition(state, event).1->Transfer_0 }),
        event == Event::PipesReady,
{
}

/// A job that is over stays as it is: every further event is rejected.
pub proof fn lemma_final_states_absorb(state: JobState, event: Event)
    requires
        state.is_final(),
    ensures
        transition(state, event) == (state, Directive::Rejected),
{
}

/// A rejected event changes nothing.
pub proof fn lemma_rejection_changes_nothing(state: JobState, event: Event)
    requires
        transition(state, event).1 is Rejected,
    ensures
        transition(state, event).0 == state,
{
}

/// The two data movements may end in either order: the job reaches the same
/// state, and asks to await the exit exactly when the second has ended.
pub proof fn lemma_movements_end_in_either_order(write_ended: Event, read_ended: Event)
    requires
        write_ended is InputWritten || write_ended is InputFailed,
        read_ended is OutputRead || read_ended is OutputFailed,
    ensures
        ({
            let start = JobState::Transferring { written: Progress::Pending, read: Progress::Pending };
            let write_first = transition(transition(start, write_ended).0, read_ended);
            let read_first = transition(transition(start, read_ended).0, write_ended);
            &&& transition(start, write_ended).1 == Directive::Await
            &&& transition(start, read_ended).1 == Directive::Await
            &&& write_first == read_first
            &&& write_first.1 == Directive::AwaitExit
            &&& write_first.0 is Exited
            &&& write_first.0->output is Some <==> (write_ended is InputWritten && read_ended is OutputRead)
            &&& read_ended is OutputRead && write_first.0->output is Some ==> write_first.0->output
                == Some(read_ended->OutputRead_0@)
        }),
{
}

/// The state of a job after a run of events.
pub open spec fn run(state: JobState, events: Seq<Event>) -> JobState
    decreases events.len(),
{
    if events.len() == 0 {
        state
    } else {
        transition(run(state, events.drop_last()), events.last()).0
    }
}

/// A run in which nothing goes wrong: the process starts, its pipes are had,
/// the input is written and the output read, in either order, and the
/// process ends with exit code zero. The job hands the process its input
/// and delivers the output of the process, each byte for byte.
pub proof fn lemma_untroubled_run_delivers_output(
    input: Seq<u8>,
    format: AudioFormat,
    output: Vec<u8>,
    write_first: bool,
)
    ensures
        ({
            let begun = beginning(input, format);
            let (first, second) = if write_first {
                (Event::InputWritten, Event::OutputRead(output))
            } else {
                (Event::OutputRead(output), Event::InputWritten)
            };
            let opened = run(begun.0, seq![Event::Spawned]);
            let ready = run(begun.0, seq![Event::Spawned, Event::PipesReady]);
            let moved = run(begun.0, seq![Event::Spawned, Event::PipesReady, first, second]);
            &&& begun.1 == Directive::Spawn(transcoder_command_line(format))
            &&& transition(begun.0, Event::Spawned).1 == Directive::OpenPipes
            &&& transition(opened, Event::PipesReady).1 == Directive::Transfer(input)
            &&& transition(ready, first).1 == Directive::Await
            &&& moved == (JobState::Exited { output: Some(output@) })
            &&& transition(moved, Event::Terminated(ProcessExit::Exited(0))) == (
                JobState::Succeeded,
                Directive::Deliver(output@),
            )
        }),
{
    let begun = beginning(input, format);
    let (first, second) = if write_first {
        (Event::InputWritten, Event::OutputRead(output))
    } else {
        (Event::OutputRead(output), Event::InputWritten)
    };
    let none = Seq::<Event>::empty();
    lemma_run_one_more(begun.0, none, Event::Spawned);
    assert(none.push(Event::Spawned) =~= seq![Event::Spawned]);
    lemma_run_one_more(begun.0, seq![Event::Spawned], Event::PipesReady);
    assert(seq![Event::Spawned].push(Event::PipesReady) =~= seq![Event::Spawned, Event::PipesReady]);
    lemma_run_one_more(begun.0, seq![Event::Spawned, Event::PipesReady], first);
    assert(seq![Event::Spawned, Event::PipesReady].push(first) =~= seq![
        Event::Spawned,
        Event::PipesReady,
        first,
    ]);
    lemma_run_one_more(begun.0, seq![Event::Spawned, Event::PipesReady, first], second);
    assert(seq![Event::Spawned, Event::PipesReady, first].push(second) =~= seq![
        Event::Spawned,
        Event::PipesReady,
        first,
        second,
    ]);
}

/// A run that is one event longer ends where that event takes the shorter
/// run.
pub proof fn lemma_run_one_more(state: JobState, events: Seq<Event>, event: Event)
    ensures
        run(state, events.push(event)) == transition(run(state, events), event).0,
{
    assert(events.push(event).drop_last() =~= events);
}

/// Whether the driver reported, somewhere in `events`, that it read exactly
/// `output` from the process.
pub open spec fn was_read(events: Seq<Event>, output: Seq<u8>) -> bool {
    exists|i: int|
        0 <= i < events.len() && #[trigger] events[i] is OutputRead && events[i]->OutputRead_0@ == output
}

/// What the state of a job says about the events that led to it: a job is
/// past a phase only if the driver reported the end of that phase, and it
/// holds output only if the driver reported that output as read.
pub open spec fn accounted_for(state: JobState, events: Seq<Event>) -> bool {
    match state {
        JobState::Spawning { .. } => true,
        JobState::PipesOpen { .. } => events.contains(Event::Spawned),
        JobState::Transferring { written, read } => {
            &&& events.contains(Event::Spawned)
            &&& events.contains(Event::PipesReady)
            &&& written is Done ==> events.contains(Event::InputWritten)
            &&& read is Done ==> was_read(events, read->Done_0)
        },
        JobState::Exited { output } => {
            &&& events.contains(Event::Spawned)
            &&& events.contains(Event::PipesReady)
            &&& output is Some ==> events.contains(Event::InputWritten) && was_read(events, output->Some_0)
        },
        JobState::Succeeded => {
            &&& events.contains(Event::Spawned)
            &&& events.contains(Event::PipesReady)
            &&& events.contains(Event::InputWritten)
            &&& events.contains(Event::Terminated(ProcessExit::Exited(0)))
        },
        JobState::Failed => true,
    }
}

/// What was reported stays reported when one more event follows.
proof fn lemma_reports_stay(events: Seq<Event>, event: Event)
    ensures
        events.push(event).contains(event),
        forall|earlier: Event| events.contains(earlier) ==> #[trigger] events.push(event).contains(earlier),
        forall|output: Seq<u8>| was_read(events, output) ==> #[trigger] was_read(events.push(event), output),
        event is OutputRead ==> was_read(events.push(event), event->OutputRead_0@),
{
    let longer = events.push(event);
    assert(longer[events.len() as int] == event);
    assert forall|earlier: Event| events.contains(earlier) implies #[trigger] longer.contains(earlier) by {
        let i = choose|i: int| 0 <= i < events.len() && events[i] == earlier;
        assert(longer[i] == earlier);
    }
    assert forall|output: Seq<u8>| was_read(events, output) implies #[trigger] was_read(longer, output) by {
        let i = choose|i: int|
            0 <= i < events.len() && #[trigger] events[i] is OutputRead && events[i]->OutputRead_0@ == output;
        assert(longer[i] is OutputRead && longer[i]->OutputRead_0@ == output);
    }
    if event is OutputRead {
        assert(longer[events.len() as int] is OutputRead);
    }
}

/// Whatever the driver reports, and in whatever order, the state of a job
/// is accounted for by what was reported.
pub proof fn lemma_state_is_accounted_for(input: Seq<u8>, events: Seq<Event>)
    ensures
        accounted_for(run(JobState::Spawning { input }, events), events),
    decreases events.len(),
{
    if events.len() > 0 {
        let before = events.drop_last();
        lemma_state_is_accounted_for(input, before);
        lemma_reports_stay(before, events.last());
        assert(before.push(events.last()) =~= events);
    }
}

/// Whatever the driver reports, and in whatever order, a job delivers
/// output only after a whole run: the process was started, its pipes were
/// had, the input was written, that very output was read, and the process
/// ended with exit code zero.
pub proof fn lemma_delivery_needs_a_whole_run(input: Seq<u8>, events: Seq<Event>, event: Event)
    requires
        transition(run(JobState::Spawning { input }, events), event).1 is Deliver,
    ensures
        event == Event::Terminated(ProcessExit::Exited(0)),
        events.contains(Event::Spawned),
        events.contains(Event::PipesReady),
        events.contains(Event::InputWritten),
        was_read(events, transition(run(JobState::Spawning { input }, events), event).1->Deliver_0),
{
    lemma_state_is_accounted_for(input, events);
}

} // verus!
