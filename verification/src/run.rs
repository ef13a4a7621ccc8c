//! The runner: one command, from the sink for its error stream to the result.
//!
//! A run asks for four things in turn: a fresh sink attached to the child's
//! error stream, the child itself, its termination, and, where it ended
//! without success, the tail of the sink. Any of the first three can fail in
//! the operating system, and each such failure is an error of its own, apart
//! from the failure of the command.
//!
//! The blocking and the suspending runner are this one machine. They differ
//! in how the driver waits for the child, and in nothing that is decided here.

use vstd::prelude::*;
use crate::outcome::ExitOutcome;
use crate::status::{
    check_status,
    spec_check_status,
    CheckStep,
    CommandFailure,
    SinkReply,
    SinkRequest,
    StatusCheck,
};

verus! {

/// How the driver waits for the child to end.
#[derive(Clone, Copy, Debug, PartialEq, Eq)]
pub enum WaitMode {
    /// The calling thread blocks until the child has ended.
    Blocking,
    /// The calling task is suspended and its thread is free for other tasks.
    Suspending,
}

/// Why a run did not succeed. `E` is the operating system's error.
#[derive(Debug, PartialEq, Eq)]
pub enum RunError<E> {
    /// The sink for the error stream could not be created or attached.
    Sink(E),
    /// The child could not be started.
    Spawn(E),
    /// Waiting for the child failed.
    Wait(E),
    /// The command ran and ended without success.
    Failed(CommandFailure),
}

/// What a run asks its driver to do.
#[derive(Clone, Copy, Debug, PartialEq, Eq)]
pub enum RunAction {
    /// Create a fresh sink and attach one handle of it to the child's error
    /// stream, keeping the other.
    CreateSink,
    /// Start the child.
    Spawn,
    /// Wait, in the given way, until the child has ended.
    Wait(WaitMode),
    /// Ask the error sink.
    AskSink(SinkRequest),
}

/// What the driver reports back.
#[derive(Debug, PartialEq, Eq)]
pub enum RunEvent<E> {
    /// The outcome of [`RunAction::CreateSink`].
    SinkCreated(Result<(), E>),
    /// The outcome of [`RunAction::Spawn`].
    Spawned(Result<(), E>),
    /// The outcome of [`RunAction::Wait`].
    Exited(Result<ExitOutcome, E>),
    /// The outcome of [`RunAction::AskSink`].
    SinkReplied(SinkReply),
}

/// A run that is waiting for its driver.
#[derive(Debug, PartialEq, Eq)]
pub enum RunState {
    /// The sink has been asked for.
    CreatingSink(WaitMode),
    /// The child is being started.
    Spawning(WaitMode),
    /// The child runs.
    Waiting(WaitMode),
    /// The child ended without success and its error sink is being read.
    Checking(StatusCheck),
}

/// Where a run stands after a step.
#[derive(Debug, PartialEq, Eq)]
pub enum RunStep<E> {
    /// The run goes on: perform the state's action and hand in the event.
    Next(RunState),
    /// The run is over.
    Done(Result<(), RunError<E>>),
}

/// A step of the status check as a step of the run it belongs to.
pub open spec fn spec_lift<E>(step: CheckStep) -> RunStep<E> {
    match step {
        CheckStep::Next(check) => RunStep::Next(RunState::Checking(check)),
        CheckStep::Done(Ok(())) => RunStep::Done(Ok(())),
        CheckStep::Done(Err(failure)) => RunStep::Done(Err(RunError::Failed(failure))),
    }
}

/// The state in which a run begins.
pub open spec fn spec_run(mode: WaitMode) -> RunState {
    RunState::CreatingSink(mode)
}

/// Begins a run whose driver waits in the given way.
pub fn run(mode: WaitMode) -> (state: RunState)
    ensures
        state == spec_run(mode),
{
    RunState::CreatingSink(mode)
}

fn lift<E>(step: CheckStep) -> (lifted: RunStep<E>)
    ensures
        lifted == spec_lift::<E>(step),
{
    match step {
        CheckStep::Next(check) => RunStep::Next(RunState::Checking(check)),
        CheckStep::Done(Ok(())) => RunStep::Done(Ok(())),
        CheckStep::Done(Err(failure)) => RunStep::Done(Err(RunError::Failed(failure))),
    }
}

impl RunState {
    /// The action that this state is waiting on.
    pub open spec fn spec_action(self) -> RunAction {
        match self {
            RunState::CreatingSink(_) => RunAction::CreateSink,
            RunState::Spawning(_) => RunAction::Spawn,
            RunState::Waiting(mode) => RunAction::Wait(mode),
            RunState::Checking(check) => RunAction::AskSink(check.spec_request()),
        }
    }

    /// The step taken on an event. An event that does not answer the pending
    /// action changes nothing.
    pub open spec fn spec_step<E>(self, event: RunEvent<E>) -> RunStep<E> {
        match (self, event) {
            (RunState::CreatingSink(mode), RunEvent::SinkCreated(Ok(()))) => RunStep::Next(
                RunState::Spawning(mode),
            ),
            (RunState::CreatingSink(_), RunEvent::SinkCreated(Err(e))) => RunStep::Done(
                Err(RunError::Sink(e)),
            ),
            (RunState::Spawning(mode), RunEvent::Spawned(Ok(()))) => RunStep::Next(
                RunState::Waiting(mode),
            ),
            (RunState::Spawning(_), RunEvent::Spawned(Err(e))) => RunStep::Done(
                Err(RunError::Spawn(e)),
            ),
            (RunState::Waiting(_), RunEvent::Exited(Ok(outcome))) => spec_lift(
                spec_check_status(outcome),
            ),
            (RunState::Waiting(_), RunEvent::Exited(Err(e))) => RunStep::Done(
                Err(RunError::Wait(e)),
            ),
            (RunState::Checking(check), RunEvent::SinkReplied(reply)) => spec_lift(
                check.spec_step(reply),
            ),
            (state, _) => RunStep::Next(state),
        }
    }

    /// The action to perform in this state.
    pub fn action(&self) -> (action: RunAction)
        ensures
            action == self.spec_action(),
    {
        match self {
            RunState::CreatingSink(_) => RunAction::CreateSink,
            RunState::Spawning(_) => RunAction::Spawn,
            RunState::Waiting(mode) => RunAction::Wait(*mode),
            RunState::Checking(check) => RunAction::AskSink(check.request()),
        }
    }

    /// Takes the outcome of the pending action and decides how the run goes on.
    ///
    /// An error of the operating system ends the run with that error, under
    /// the step at which it came. A child that ended with success ends the run
    /// with success, and its error sink is not read. A child that ended
    /// otherwise has the tail of its error sink read, and then ends the run
    /// with the failure. An event that does not answer the pending action
    /// leaves the run where it was, so that the action is asked for again.
    pub fn step<E>(self, event: RunEvent<E>) -> (next: RunStep<E>)
        ensures
            next == self.spec_step(event),
    {
        match self {
            RunState::CreatingSink(mode) => match event {
                RunEvent::SinkCreated(Ok(())) => RunStep::Next(RunState::Spawning(mode)),
                RunEvent::SinkCreated(Err(e)) => RunStep::Done(Err(RunError::Sink(e))),
                _ => RunStep::Next(RunState::CreatingSink(mode)),
            },
            RunState::Spawning(mode) => match event {
                RunEvent::Spawned(Ok(())) => RunStep::Next(RunState::Waiting(mode)),
                RunEvent::Spawned(Err(e)) => RunStep::Done(Err(RunError::Spawn(e))),
                _ => RunStep::Next(RunState::Spawning(mode)),
            },
            RunState::Waiting(mode) => match event {
                RunEvent::Exited(Ok(outcome)) => lift(check_status(outcome)),
                RunEvent::Exited(Err(e)) => RunStep::Done(Err(RunError::Wait(e))),
                _ => RunStep::Next(RunState::Waiting(mode)),
            },
            RunState::Checking(check) => match event {
                RunEvent::SinkReplied(reply) => lift(check.step(reply)),
                _ => RunStep::Next(RunState::Checking(check)),
            },
        }
    }
}

} // verus!
