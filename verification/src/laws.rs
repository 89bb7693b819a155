//! What holds of every run: no handle is lost, no handle is used that is not
//! open, and the exit code of the child is the status of the launcher.

use crate::handle::Handle;
use crate::lifecycle::{Action, Event, Failure, State};
use crate::status::{spec_exit_status, LAUNCH_FAILURE_STATUS};
use vstd::multiset::Multiset;
use vstd::prelude::*;

verus! {

/// The state that a run has reached after `events`, each of which answered
/// the action of the state before it. `None` where one of them did not.
pub open spec fn run(events: Seq<Event>) -> Option<State>
    decreases events.len(),
{
    if events.len() == 0 {
        Some(State::spec_start())
    } else {
        match run(events.drop_last()) {
            Some(state) => if state.accepts(events.last()) {
                Some(state.next(events.last()))
            } else {
                None
            },
            None => None,
        }
    }
}

/// The handles that `events` brought into the launcher's care.
pub open spec fn opened(events: Seq<Event>) -> Multiset<Handle>
    decreases events.len(),
{
    if events.len() == 0 {
        Multiset::empty()
    } else {
        opened(events.drop_last()).add(events.last().opens())
    }
}

/// The handles that the actions answered by `events` gave back to the system.
pub open spec fn closed(events: Seq<Event>) -> Multiset<Handle>
    decreases events.len(),
{
    if events.len() == 0 {
        Multiset::empty()
    } else {
        match run(events.drop_last()) {
            Some(state) => closed(events.drop_last()).add(state.spec_action().closes()),
            None => closed(events.drop_last()),
        }
    }
}

/// Every action hands the system only handles that are open.
pub proof fn lemma_action_uses_open_handles(state: State)
    ensures
        state.spec_action().uses().subset_of(state.held()),
{
}

/// One step keeps the books: what was open and what the event opened is what
/// is open afterwards and what the action closed.
pub proof fn lemma_step_conserves_handles(state: State, event: Event)
    requires
        state.accepts(event),
    ensures
        state.held().add(event.opens()) == state.next(event).held().add(
            state.spec_action().closes(),
        ),
{
    assert(state.held().add(event.opens()) =~= state.next(event).held().add(
        state.spec_action().closes(),
    ));
}

/// At every point of a run, the handles opened so far are those closed so far
/// and those still open.
pub proof fn lemma_run_conserves_handles(events: Seq<Event>)
    requires
        run(events) is Some,
    ensures
        opened(events) == closed(events).add(run(events).unwrap().held()),
    decreases events.len(),
{
    if events.len() == 0 {
        assert(opened(events) =~= closed(events).add(run(events).unwrap().held()));
    } else {
        let before = events.drop_last();
        let state = run(before).unwrap();
        lemma_run_conserves_handles(before);
        lemma_step_conserves_handles(state, events.last());
        lemma_books_balance(
            opened(before),
            events.last().opens(),
            closed(before),
            state.spec_action().closes(),
            state.held(),
            state.next(events.last()).held(),
        );
    }
}

/// If what was opened is what was closed and what is held, and a step trades
/// what it opens and what was held for what it closes and what is held after
/// it, then the same balance holds after the step.
proof fn lemma_books_balance(
    opened: Multiset<Handle>,
    opening: Multiset<Handle>,
    closed: Multiset<Handle>,
    closing: Multiset<Handle>,
    held: Multiset<Handle>,
    held_after: Multiset<Handle>,
)
    requires
        opened == closed.add(held),
        held.add(opening) == held_after.add(closing),
    ensures
        opened.add(opening) == closed.add(closing).add(held_after),
{
    assert forall|h: Handle|
        opened.add(opening).count(h) == closed.add(closing).add(held_after).count(h) by {
        assert(opened.count(h) == closed.count(h) + held.count(h));
        assert(held.add(opening).count(h) == held.count(h) + opening.count(h));
        assert(held_after.add(closing).count(h) == held_after.count(h) + closing.count(h));
        assert(closed.add(closing).count(h) == closed.count(h) + closing.count(h));
    }
    assert(opened.add(opening) =~= closed.add(closing).add(held_after));
}

/// A run that is over has closed every handle that it opened, whichever of
/// its steps failed, and holds none.
pub proof fn lemma_finished_run_leaks_no_handle(events: Seq<Event>)
    requires
        run(events) is Some,
        run(events).unwrap().is_final(),
    ensures
        closed(events) == opened(events),
        run(events).unwrap().held() == Multiset::<Handle>::empty(),
{
    lemma_run_conserves_handles(events);
    assert(closed(events) =~= opened(events));
}

/// Once the child has reported its exit code, the run carries that code as
/// its status to the end.
pub proof fn lemma_exit_code_settles_status(events: Seq<Event>, i: int)
    requires
        run(events) is Some,
        0 <= i < events.len(),
        events[i] is ExitCode,
    ensures
        match run(events).unwrap() {
            State::ClosingProcess { status, .. } | State::Finished { status, .. } => status
                == spec_exit_status(events[i]->ExitCode_code),
            _ => false,
        },
    decreases events.len(),
{
    let before = events.drop_last();
    if i < events.len() - 1 {
        assert(before[i] == events[i]);
        lemma_exit_code_settles_status(before, i);
    }
}

/// The launcher ends with the exit code of the child: a run that launched its
/// child and heard its exit code asks in the end for an exit with that code
/// as status, and with a report.
pub proof fn lemma_exit_status_is_the_childs(events: Seq<Event>, i: int)
    requires
        run(events) is Some,
        run(events).unwrap().is_final(),
        0 <= i < events.len(),
        events[i] is ExitCode,
    ensures
        run(events).unwrap().spec_action() matches Action::Exit { status, report }
            && status == spec_exit_status(events[i]->ExitCode_code) && report is Some,
{
    lemma_exit_code_settles_status(events, i);
}

/// A run is aborted exactly where its launch failed, and then nothing else
/// happened in it: no handle was opened, and the launcher is asked to end with
/// the status of a failed launch and without a report.
pub proof fn lemma_failed_launch_aborts(events: Seq<Event>)
    requires
        run(events) is Some,
    ensures
        run(events).unwrap() is Aborted <==> events.len() > 0 && events[0] is Failed,
        run(events).unwrap() is Aborted ==> {
            &&& events.len() == 1
            &&& opened(events) == Multiset::<Handle>::empty()
            &&& run(events).unwrap().spec_action() == Action::Exit {
                status: LAUNCH_FAILURE_STATUS,
                report: None,
            }
        },
    decreases events.len(),
{
    if events.len() > 0 {
        let before = events.drop_last();
        lemma_failed_launch_aborts(before);
        if before.len() > 0 {
            assert(before[0] == events[0]);
        } else {
            assert(opened(before) =~= Multiset::<Handle>::empty());
            assert(opened(events) =~= opened(before).add(events.last().opens()));
        }
    }
}

/// The number of events of the longest run.
pub const LONGEST_RUN: usize = 11;

/// How far a run has come: the number of the step that the state asks for, in
/// the order of a run in which nothing fails.
pub open spec fn progress(state: State) -> nat {
    match state {
        State::Launching => 0,
        State::CreatingGroup { .. } => 1,
        State::Attaching { .. } => 2,
        State::Resuming { .. } => 3,
        State::ClosingThread { .. } => 4,
        State::Waiting { .. } => 5,
        State::QueryingPeak { .. } => 6,
        State::ClosingGroup { .. } => 7,
        State::QueryingTimes { .. } => 8,
        State::QueryingExitCode { .. } => 9,
        State::ClosingProcess { .. } => 10,
        State::Finished { .. } | State::Aborted => LONGEST_RUN as nat,
    }
}

/// Every event that a state accepts takes the run forward, and no state asks
/// for the action of an earlier one again.
pub proof fn lemma_step_makes_progress(state: State, event: Event)
    requires
        state.accepts(event),
    ensures
        progress(state) < progress(state.next(event)) <= LONGEST_RUN,
{
}

/// A run is over after eleven events at the latest: the launcher asks for
/// each step once and comes to its exit whatever the system answers.
pub proof fn lemma_run_is_bounded(events: Seq<Event>)
    requires
        run(events) is Some,
    ensures
        events.len() <= progress(run(events).unwrap()) <= LONGEST_RUN,
        events.len() == LONGEST_RUN ==> run(events).unwrap().is_final(),
    decreases events.len(),
{
    if events.len() > 0 {
        let before = events.drop_last();
        lemma_run_is_bounded(before);
        lemma_step_makes_progress(run(before).unwrap(), events.last());
    }
}

/// A run never waits for an event that cannot come: until it is over, some
/// event answers the action of its state, and once it is over none does.
pub proof fn lemma_every_action_has_an_answer(state: State)
    ensures
        state.is_final() <==> forall|event: Event| !state.accepts(event),
        !state.is_final() ==> {
            ||| state.accepts(Event::Completed)
            ||| state.operation() is Some
            ||| state is CreatingGroup
        },
        state.operation() is Some ==> forall|error: i32| state.accepts(Event::Failed { error }),
        state is CreatingGroup ==> forall|group: Handle|
            state.accepts(Event::GroupCreated { group }),
{
    if !state.is_final() {
        if state.operation() is Some {
            assert(state.accepts(Event::Failed { error: 0 }));
        } else if state is CreatingGroup {
            assert(state.accepts(Event::GroupCreated { group: Handle { raw: 0 } }));
        } else {
            assert(state.accepts(Event::Completed));
        }
    }
}

/// No failure is swallowed, and only a failed launch is fatal: a reported
/// failure is logged with its error code and the step that failed, nothing
/// else is logged, and the run is aborted exactly where the failure logged is
/// a fatal one.
pub proof fn lemma_failures_are_logged(state: State, event: Event)
    requires
        state.accepts(event),
    ensures
        event matches Event::Failed { error } ==> state.diagnostic(event) == Some(
            Failure { operation: state.operation().unwrap(), code: error },
        ),
        !(event is Failed) ==> state.diagnostic(event) is None,
        state.next(event) is Aborted <==> state.diagnostic(event) is Some && state.diagnostic(
            event,
        ).unwrap().spec_is_fatal(),
{
}

/// The creation of the group is always followed by the attach: whatever
/// handle the creation gave, the launcher next asks to attach the process of
/// the child to that handle.
pub proof fn lemma_attach_follows_creation(state: State, event: Event)
    requires
        state is CreatingGroup,
        state.accepts(event),
    ensures
        event is GroupCreated,
        state.next(event).spec_action() == (Action::Attach {
            group: event->group,
            process: state->CreatingGroup_child.process,
        }),
{
}

/// The child is let run only after the attempt to attach it to the tracking
/// group, whether the attempt succeeded or failed: a state asks for the
/// resume only as the answer to an attach of the same process.
pub proof fn lemma_resume_follows_attach(state: State, event: Event)
    requires
        state.accepts(event),
        state.next(event).spec_action() is Resume,
    ensures
        state is Attaching,
        event is Completed || event is Failed,
        state.spec_action() == (Action::Attach {
            group: state->Attaching_group,
            process: state->Attaching_child.process,
        }),
        state.next(event).spec_action() == (Action::Resume {
            thread: state->Attaching_child.thread,
        }),
{
}

/// In every run the steps come in one order. A run that has not been aborted
/// has heard as many events as its state has steps behind it, so the resume
/// is its fourth action and the attach, of the handle that the creation
/// returned, its third.
pub proof fn lemma_run_keeps_the_order(events: Seq<Event>)
    requires
        run(events) is Some,
        !(run(events).unwrap() is Aborted),
    ensures
        events.len() == progress(run(events).unwrap()),
        run(events).unwrap().spec_action() is Resume ==> {
            &&& events.len() == 3
            &&& events[0] is Launched
            &&& events[1] is GroupCreated
            &&& events[2] is Completed || events[2] is Failed
            &&& run(events.drop_last()) is Some
            &&& run(events.drop_last()).unwrap().spec_action() == (Action::Attach {
                group: events[1]->group,
                process: events[0]->child.process,
            })
        },
    decreases events.len(),
{
    if events.len() > 0 {
        let before = events.drop_last();
        lemma_failed_launch_aborts(before);
        lemma_run_keeps_the_order(before);
        if run(events).unwrap().spec_action() is Resume {
            let state = run(before).unwrap();
            lemma_resume_follows_attach(state, events.last());
            assert(before.len() == 2);
            let first = before.drop_last();
            assert(first.len() == 1);
            assert(first.drop_last().len() == 0);
            assert(run(first.drop_last()) == Some(State::Launching));
            assert(first.last() == events[0]);
            assert(before.last() == events[1]);
        }
    }
}

} // verus!
