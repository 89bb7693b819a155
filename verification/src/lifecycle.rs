//! The life of one timed child, as a state machine.
//!
//! A [`State`] names the one thing the launcher has to do next, its
//! [`Action`]. The program carries the action out and reports what happened as
//! an [`Event`]; [`State::step`] answers with the state that follows and, where
//! the action failed, with the [`Failure`] to log. Only a failed launch ends
//! the run early. Every later failure costs a statistic and nothing else: the
//! child still runs, its handles are still closed and its exit code is still
//! handed on.

use crate::clock::{measure, measured, ProcessTimes, TimingReport};
use crate::handle::{ChildProcess, Handle};
use crate::status::{exit_status, spec_exit_status, LAUNCH_FAILURE_STATUS};
use vstd::multiset::Multiset;
use vstd::prelude::*;

verus! {

/// The steps of a run whose failure the system reports.
#[derive(Clone, Copy, Debug, PartialEq, Eq, Structural)]
pub enum Operation {
    /// Creating the child process, suspended.
    Launch,
    /// Assigning the child to the tracking group.
    Attach,
    /// Asking the tracking group for the peak memory.
    QueryPeak,
    /// Asking the process for its times.
    QueryTimes,
    /// Asking the process for its exit code.
    QueryExitCode,
}

/// A step that failed, with the error code of the operating system.
#[derive(Clone, Copy, Debug, PartialEq, Eq, Structural)]
pub struct Failure {
    pub operation: Operation,
    pub code: i32,
}

/// What the program reports after it has carried out an action.
#[derive(Clone, Copy, Debug, PartialEq, Eq)]
pub enum Event {
    /// The child exists and is suspended.
    Launched { child: ChildProcess },
    /// The system answered the creation of the tracking group with this
    /// handle. The handle is not looked at: where no group came to exist, it
    /// is the null handle, and the attach that follows fails and is logged.
    GroupCreated { group: Handle },
    /// The action was carried out. It stands for success where the action can
    /// fail, and for any outcome where its result is not looked at.
    Completed,
    /// The action failed, and this is the system's error code for it.
    Failed { error: i32 },
    /// The tracking group reported this peak, in bytes.
    Peak { bytes: u64 },
    /// The process reported these times; `current` is the handle that the
    /// launcher has for itself.
    Times { raw: ProcessTimes, current: Handle },
    /// The process reported this exit code.
    ExitCode { code: u32 },
}

/// The statistics of a run.
#[derive(Clone, Copy, Debug, PartialEq, Eq)]
pub struct Report {
    /// The peak memory in bytes; zero where it could not be had.
    pub peak: u64,
    /// The timing; absent where it could not be had.
    pub times: Option<TimingReport>,
}

/// What the program has to do next.
#[derive(Clone, Copy, Debug, PartialEq, Eq)]
pub enum Action {
    /// Create the child from the command line, suspended.
    Launch,
    /// Create a tracking group, and hand back whatever handle comes of it.
    CreateGroup,
    /// Assign the process to the tracking group.
    Attach { group: Handle, process: Handle },
    /// Let the suspended thread run.
    Resume { thread: Handle },
    /// Close the handle of the thread.
    CloseThread { thread: Handle },
    /// Block until the process has ended.
    Wait { process: Handle },
    /// Ask the tracking group for its peak memory.
    QueryPeak { group: Handle },
    /// Close the handle of the tracking group.
    CloseGroup { group: Handle },
    /// Ask the process for its times.
    QueryTimes { process: Handle },
    /// Ask the process for its exit code.
    QueryExitCode { process: Handle },
    /// Close the handle of the process.
    CloseProcess { process: Handle },
    /// Print the report, if there is one, and end with this status.
    Exit { status: i32, report: Option<Report> },
}

impl Action {
    /// The handles that the action hands to the system.
    pub open spec fn uses(self) -> Multiset<Handle> {
        match self {
            Action::Launch | Action::CreateGroup | Action::Exit { .. } => Multiset::empty(),
            Action::Attach { group, process } => Multiset::empty().insert(group).insert(process),
            Action::Resume { thread } => Multiset::singleton(thread),
            Action::CloseThread { thread } => Multiset::singleton(thread),
            Action::Wait { process } => Multiset::singleton(process),
            Action::QueryPeak { group } => Multiset::singleton(group),
            Action::CloseGroup { group } => Multiset::singleton(group),
            Action::QueryTimes { process } => Multiset::singleton(process),
            Action::QueryExitCode { process } => Multiset::singleton(process),
            Action::CloseProcess { process } => Multiset::singleton(process),
        }
    }

    /// The handles that the action gives back to the system.
    pub open spec fn closes(self) -> Multiset<Handle> {
        match self {
            Action::CloseThread { thread } => Multiset::singleton(thread),
            Action::CloseGroup { group } => Multiset::singleton(group),
            Action::CloseProcess { process } => Multiset::singleton(process),
            _ => Multiset::empty(),
        }
    }
}

impl Event {
    /// The handles that the event brings into the launcher's care.
    pub open spec fn opens(self) -> Multiset<Handle> {
        match self {
            Event::Launched { child } => Multiset::empty().insert(child.process).insert(
                child.thread,
            ),
            Event::GroupCreated { group } => Multiset::singleton(group),
            _ => Multiset::empty(),
        }
    }
}

/// Where a run stands. Each state holds what the rest of the run needs: the
/// handles that are open and the results gathered so far.
#[derive(Clone, Copy, Debug, PartialEq, Eq)]
pub enum State {
    /// Nothing exists yet; the child is to be launched.
    Launching,
    /// The child is suspended; the tracking group is to be created.
    CreatingGroup { child: ChildProcess },
    /// The child is to be assigned to the group.
    Attaching { child: ChildProcess, group: Handle },
    /// The attach has been tried; the child is to be let run.
    Resuming { child: ChildProcess, group: Handle },
    /// The child runs; the handle of its thread is to be closed.
    ClosingThread { child: ChildProcess, group: Handle },
    /// The end of the child is to be awaited.
    Waiting { process: Handle, group: Handle },
    /// The child has ended; the group is to be asked for the peak memory.
    QueryingPeak { process: Handle, group: Handle },
    /// The handle of the group is to be closed.
    ClosingGroup { process: Handle, group: Handle, peak: u64 },
    /// The process is to be asked for its times.
    QueryingTimes { process: Handle, peak: u64 },
    /// The process is to be asked for its exit code.
    QueryingExitCode { process: Handle, report: Report },
    /// The handle of the process is to be closed.
    ClosingProcess { process: Handle, report: Report, status: i32 },
    /// The run is over and nothing is open.
    Finished { report: Report, status: i32 },
    /// The child could not be launched; nothing was ever open.
    Aborted,
}

/// A state that follows an event, and the failure to log on the way there.
#[derive(Clone, Copy, Debug, PartialEq, Eq)]
pub struct Transition {
    pub state: State,
    pub diagnostic: Option<Failure>,
}

impl Failure {
    /// A failure is fatal exactly where no child came to exist.
    pub open spec fn spec_is_fatal(self) -> bool {
        self.operation == Operation::Launch
    }

    /// Whether the run ends with this failure.
    pub fn is_fatal(&self) -> (fatal: bool)
        ensures
            fatal == self.spec_is_fatal(),
    {
        match self.operation {
            Operation::Launch => true,
            _ => false,
        }
    }
}

impl State {
    /// The state in which every run begins.
    pub open spec fn spec_start() -> State {
        State::Launching
    }

    /// The state in which every run begins.
    pub fn start() -> (state: State)
        ensures
            state == State::spec_start(),
    {
        State::Launching
    }

    /// The action that the state asks for.
    pub open spec fn spec_action(self) -> Action {
        match self {
            State::Launching => Action::Launch,
            State::CreatingGroup { .. } => Action::CreateGroup,
            State::Attaching { child, group } => Action::Attach { group, process: child.process },
            State::Resuming { child, .. } => Action::Resume { thread: child.thread },
            State::ClosingThread { child, .. } => Action::CloseThread { thread: child.thread },
            State::Waiting { process, .. } => Action::Wait { process },
            State::QueryingPeak { group, .. } => Action::QueryPeak { group },
            State::ClosingGroup { group, .. } => Action::CloseGroup { group },
            State::QueryingTimes { process, .. } => Action::QueryTimes { process },
            State::QueryingExitCode { process, .. } => Action::QueryExitCode { process },
            State::ClosingProcess { process, .. } => Action::CloseProcess { process },
            State::Finished { report, status } => Action::Exit { status, report: Some(report) },
            State::Aborted => Action::Exit { status: LAUNCH_FAILURE_STATUS, report: None },
        }
    }

    /// The step of the state's action, where the system reports its failure.
    pub open spec fn operation(self) -> Option<Operation> {
        match self {
            State::Launching => Some(Operation::Launch),
            State::Attaching { .. } => Some(Operation::Attach),
            State::QueryingPeak { .. } => Some(Operation::QueryPeak),
            State::QueryingTimes { .. } => Some(Operation::QueryTimes),
            State::QueryingExitCode { .. } => Some(Operation::QueryExitCode),
            _ => None,
        }
    }

    /// Whether the run is over: the state asks for the exit and takes no event.
    pub open spec fn is_final(self) -> bool {
        self is Finished || self is Aborted
    }

    /// The handles that are open in this state.
    pub open spec fn held(self) -> Multiset<Handle> {
        match self {
            State::Launching | State::Finished { .. } | State::Aborted => Multiset::empty(),
            State::CreatingGroup { child } => child_handles(child),
            State::Attaching { child, group }
            | State::Resuming { child, group }
            | State::ClosingThread { child, group } => child_handles(child).insert(group),
            State::Waiting { process, group }
            | State::QueryingPeak { process, group }
            | State::ClosingGroup { process, group, .. } => Multiset::singleton(process).insert(
                group,
            ),
            State::QueryingTimes { process, .. }
            | State::QueryingExitCode { process, .. }
            | State::ClosingProcess { process, .. } => Multiset::singleton(process),
        }
    }

    /// Whether `event` answers the action of this state.
    ///
    /// A failure answers the actions whose result the launcher looks at. The
    /// creation of the group is answered by its handle, whatever that is, and
    /// the other actions are only ever completed: resuming, waiting and
    /// closing.
    pub open spec fn accepts(self, event: Event) -> bool {
        match event {
            Event::Launched { .. } => self is Launching,
            Event::GroupCreated { .. } => self is CreatingGroup,
            Event::Failed { .. } => self.operation() is Some,
            Event::Peak { .. } => self is QueryingPeak,
            Event::Times { .. } => self is QueryingTimes,
            Event::ExitCode { .. } => self is QueryingExitCode,
            Event::Completed => {
                ||| self is Attaching
                ||| self is Resuming
                ||| self is ClosingThread
                ||| self is Waiting
                ||| self is ClosingGroup
                ||| self is ClosingProcess
            },
        }
    }

    /// The failure to log when `event` arrives in this state: each reported
    /// failure, with the step that failed.
    pub open spec fn diagnostic(self, event: Event) -> Option<Failure> {
        match (event, self.operation()) {
            (Event::Failed { error }, Some(operation)) => Some(Failure { operation, code: error }),
            _ => None,
        }
    }

    /// The state that follows when `event` answers the action of this state.
    /// It is this state itself where the event does not answer it.
    pub open spec fn next(self, event: Event) -> State {
        match (self, event) {
            (State::Launching, Event::Launched { child }) => State::CreatingGroup { child },
            (State::Launching, Event::Failed { .. }) => State::Aborted,
            (State::CreatingGroup { child }, Event::GroupCreated { group }) => State::Attaching {
                child,
                group,
            },
            (State::Attaching { child, group }, Event::Completed)
            | (State::Attaching { child, group }, Event::Failed { .. }) => State::Resuming {
                child,
                group,
            },
            (State::Resuming { child, group }, Event::Completed) => State::ClosingThread {
                child,
                group,
            },
            (State::ClosingThread { child, group }, Event::Completed) => State::Waiting {
                process: child.process,
                group,
            },
            (State::Waiting { process, group }, Event::Completed) => State::QueryingPeak {
                process,
                group,
            },
            (State::QueryingPeak { process, group }, Event::Peak { bytes }) => {
                State::ClosingGroup { process, group, peak: bytes }
            },
            (State::QueryingPeak { process, group }, Event::Failed { .. }) => {
                State::ClosingGroup { process, group, peak: 0 }
            },
            (State::ClosingGroup { process, peak, .. }, Event::Completed) => {
                State::QueryingTimes { process, peak }
            },
            (State::QueryingTimes { process, peak }, Event::Times { raw, current }) => {
                State::QueryingExitCode {
                    process,
                    report: Report { peak, times: Some(measured(raw, process, current)) },
                }
            },
            (State::QueryingTimes { process, peak }, Event::Failed { .. }) => {
                State::QueryingExitCode { process, report: Report { peak, times: None } }
            },
            (State::QueryingExitCode { process, report }, Event::ExitCode { code }) => {
                State::ClosingProcess { process, report, status: spec_exit_status(code) as i32 }
            },
            (State::QueryingExitCode { process, report }, Event::Failed { .. }) => {
                State::ClosingProcess { process, report, status: 0 }
            },
            (State::ClosingProcess { report, status, .. }, Event::Completed) => State::Finished {
                report,
                status,
            },
            _ => self,
        }
    }

    /// The action that the state asks for.
    pub fn action(&self) -> (action: Action)
        ensures
            action == self.spec_action(),
    {
        match *self {
            State::Launching => Action::Launch,
            State::CreatingGroup { .. } => Action::CreateGroup,
            State::Attaching { child, group } => Action::Attach { group, process: child.process },
            State::Resuming { child, .. } => Action::Resume { thread: child.thread },
            State::ClosingThread { child, .. } => Action::CloseThread { thread: child.thread },
            State::Waiting { process, .. } => Action::Wait { process },
            State::QueryingPeak { group, .. } => Action::QueryPeak { group },
            State::ClosingGroup { group, .. } => Action::CloseGroup { group },
            State::QueryingTimes { process, .. } => Action::QueryTimes { process },
            State::QueryingExitCode { process, .. } => Action::QueryExitCode { process },
            State::ClosingProcess { process, .. } => Action::CloseProcess { process },
            State::Finished { report, status } => Action::Exit { status, report: Some(report) },
            State::Aborted => Action::Exit { status: LAUNCH_FAILURE_STATUS, report: None },
        }
    }

    /// Takes the outcome of the state's action and decides how the run goes
    /// on.
    ///
    /// The answer is `None`, exactly where `event` is no outcome of the action
    /// that this state asks for.
    pub fn step(self, event: Event) -> (outcome: Option<Transition>)
        ensures
            outcome is Some <==> self.accepts(event),
            outcome matches Some(transition) ==> {
                &&& transition.state == self.next(event)
                &&& transition.diagnostic == self.diagnostic(event)
            },
    {
        match self {
            State::Launching => match event {
                Event::Launched { child } => proceed(State::CreatingGroup { child }),
                Event::Failed { error } => degrade(State::Aborted, Operation::Launch, error),
                _ => None,
            },
            State::CreatingGroup { child } => match event {
                Event::GroupCreated { group } => proceed(State::Attaching { child, group }),
                _ => None,
            },
            State::Attaching { child, group } => {
                let resuming = State::Resuming { child, group };
                match event {
                    Event::Completed => proceed(resuming),
                    Event::Failed { error } => degrade(resuming, Operation::Attach, error),
                    _ => None,
                }
            },
            State::Resuming { child, group } => match event {
                Event::Completed => proceed(State::ClosingThread { child, group }),
                _ => None,
            },
            State::ClosingThread { child, group } => match event {
                Event::Completed => proceed(State::Waiting { process: child.process, group }),
                _ => None,
            },
            State::Waiting { process, group } => match event {
                Event::Completed => proceed(State::QueryingPeak { process, group }),
                _ => None,
            },
            State::QueryingPeak { process, group } => match event {
                Event::Peak { bytes } => proceed(State::ClosingGroup { process, group, peak: bytes }),
                Event::Failed { error } => degrade(
                    State::ClosingGroup { process, group, peak: 0 },
                    Operation::QueryPeak,
                    error,
                ),
                _ => None,
            },
            State::ClosingGroup { process, group: _, peak } => match event {
                Event::Completed => proceed(State::QueryingTimes { process, peak }),
                _ => None,
            },
            State::QueryingTimes { process, peak } => match event {
                Event::Times { raw, current } => {
                    let times = measure(&raw, process, current);
                    proceed(
                        State::QueryingExitCode {
                            process,
                            report: Report { peak, times: Some(times) },
                        },
                    )
                },
                Event::Failed { error } => degrade(
                    State::QueryingExitCode { process, report: Report { peak, times: None } },
                    Operation::QueryTimes,
                    error,
                ),
                _ => None,
            },
            State::QueryingExitCode { process, report } => match event {
                Event::ExitCode { code } => proceed(
                    State::ClosingProcess { process, report, status: exit_status(code) },
                ),
                Event::Failed { error } => degrade(
                    State::ClosingProcess { process, report, status: 0 },
                    Operation::QueryExitCode,
                    error,
                ),
                _ => None,
            },
            State::ClosingProcess { process: _, report, status } => match event {
                Event::Completed => proceed(State::Finished { report, status }),
                _ => None,
            },
            State::Finished { .. } | State::Aborted => None,
        }
    }
}

/// The two handles of a child.
pub open spec fn child_handles(child: ChildProcess) -> Multiset<Handle> {
    Multiset::empty().insert(child.process).insert(child.thread)
}

/// The run goes on in `state` with nothing to log.
fn proceed(state: State) -> (outcome: Option<Transition>)
    ensures
        outcome == Some(Transition { state, diagnostic: None }),
{
    Some(Transition { state, diagnostic: None })
}

/// The run goes on in `state` after `operation` has failed with `code`.
fn degrade(state: State, operation: Operation, code: i32) -> (outcome: Option<Transition>)
    ensures
        outcome == Some(Transition { state, diagnostic: Some(Failure { operation, code }) }),
{
    Some(Transition { state, diagnostic: Some(Failure { operation, code }) })
}

} // verus!
