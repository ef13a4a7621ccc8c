//! The structured-output runner: a run whose standard output is captured and,
//! once the command has succeeded, decoded into a value.
//!
//! It wraps a blocking run between two steps of its own. Before the run, a
//! second sink is created and attached to the child's output stream. After a
//! successful run, that sink is rewound to its start and decoded. Decoding is
//! never asked for after a failed run: what a failed command printed is not
//! the value, and an error about it would hide the failure.
//!
//! `T` is the decoded value, `E` the operating system's error and `D` the
//! decoder's. The decoding itself is the driver's.

use vstd::prelude::*;
use crate::run::{run, spec_run, RunAction, RunError, RunEvent, RunState, RunStep, WaitMode};

verus! {

/// Why a structured-output run gave no value.
#[derive(Debug, PartialEq, Eq)]
pub enum ParseError<E, D> {
    /// The sink for the output stream could not be created or attached.
    OutputSink(E),
    /// The run did not succeed; its error is carried as it came.
    Run(RunError<E>),
    /// The output sink could not be rewound to its start.
    Seek(E),
    /// The command succeeded, and its output is not the expected value.
    Decode(D),
}

/// What a structured-output run asks its driver to do.
#[derive(Clone, Copy, Debug, PartialEq, Eq)]
pub enum ParseAction {
    /// Create a fresh sink and attach one handle of it to the child's output
    /// stream, keeping the other.
    CreateOutputSink,
    /// Perform the action of the run.
    Run(RunAction),
    /// Seek the output sink to its start.
    Rewind,
    /// Decode the whole content of the output sink.
    Decode,
}

/// What the driver reports back.
#[derive(Debug, PartialEq, Eq)]
pub enum ParseEvent<T, E, D> {
    /// The outcome of [`ParseAction::CreateOutputSink`].
    OutputSinkCreated(Result<(), E>),
    /// The outcome of [`ParseAction::Run`].
    Ran(RunEvent<E>),
    /// The outcome of [`ParseAction::Rewind`].
    Rewound(Result<(), E>),
    /// The outcome of [`ParseAction::Decode`].
    Decoded(Result<T, D>),
}

/// A structured-output run that is waiting for its driver.
#[derive(Debug, PartialEq, Eq)]
pub enum ParseState {
    /// The output sink has been asked for.
    CreatingOutputSink,
    /// The command runs.
    Running(RunState),
    /// The command has succeeded and the output sink is being rewound.
    Rewinding,
    /// The output is being decoded.
    Decoding,
}

/// Where a structured-output run stands after a step.
#[derive(Debug, PartialEq, Eq)]
pub enum ParseStep<T, E, D> {
    /// The run goes on: perform the state's action and hand in the event.
    Next(ParseState),
    /// The run is over.
    Done(Result<T, ParseError<E, D>>),
}

/// A step of the inner run as a step of the structured-output run: success
/// of the run leads on to the rewinding, anything else is kept.
pub open spec fn spec_lift_run<T, E, D>(step: RunStep<E>) -> ParseStep<T, E, D> {
    match step {
        RunStep::Next(state) => ParseStep::Next(ParseState::Running(state)),
        RunStep::Done(Ok(())) => ParseStep::Next(ParseState::Rewinding),
        RunStep::Done(Err(e)) => ParseStep::Done(Err(ParseError::Run(e))),
    }
}

/// The state in which a structured-output run begins.
pub open spec fn spec_run_and_parse_json() -> ParseState {
    ParseState::CreatingOutputSink
}

/// Begins a structured-output run.
pub fn run_and_parse_json() -> (state: ParseState)
    ensures
        state == spec_run_and_parse_json(),
{
    ParseState::CreatingOutputSink
}

fn lift_run<T, E, D>(step: RunStep<E>) -> (lifted: ParseStep<T, E, D>)
    ensures
        lifted == spec_lift_run::<T, E, D>(step),
{
    match step {
        RunStep::Next(state) => ParseStep::Next(ParseState::Running(state)),
        RunStep::Done(Ok(())) => ParseStep::Next(ParseState::Rewinding),
        RunStep::Done(Err(e)) => ParseStep::Done(Err(ParseError::Run(e))),
    }
}

impl ParseState {
    /// The action that this state is waiting on.
    pub open spec fn spec_action(self) -> ParseAction {
        match self {
            ParseState::CreatingOutputSink => ParseAction::CreateOutputSink,
            ParseState::Running(state) => ParseAction::Run(state.spec_action()),
            ParseState::Rewinding => ParseAction::Rewind,
            ParseState::Decoding => ParseAction::Decode,
        }
    }

    /// The step taken on an event. An event that does not answer the pending
    /// action changes nothing.
    pub open spec fn spec_step<T, E, D>(self, event: ParseEvent<T, E, D>) -> ParseStep<T, E, D> {
        match (self, event) {
            (ParseState::CreatingOutputSink, ParseEvent::OutputSinkCreated(Ok(()))) => {
                ParseStep::Next(ParseState::Running(spec_run(WaitMode::Blocking)))
            },
            (ParseState::CreatingOutputSink, ParseEvent::OutputSinkCreated(Err(e))) => {
                ParseStep::Done(Err(ParseError::OutputSink(e)))
            },
            (ParseState::Running(state), ParseEvent::Ran(event)) => spec_lift_run(
                state.spec_step(event),
            ),
            (ParseState::Rewinding, ParseEvent::Rewound(Ok(()))) => ParseStep::Next(
                ParseState::Decoding,
            ),
            (ParseState::Rewinding, ParseEvent::Rewound(Err(e))) => ParseStep::Done(
                Err(ParseError::Seek(e)),
            ),
            (ParseState::Decoding, ParseEvent::Decoded(Ok(value))) => ParseStep::Done(Ok(value)),
            (ParseState::Decoding, ParseEvent::Decoded(Err(d))) => ParseStep::Done(
                Err(ParseError::Decode(d)),
            ),
            (state, _) => ParseStep::Next(state),
        }
    }

    /// The action to perform in this state.
    pub fn action(&self) -> (action: ParseAction)
        ensures
            action == self.spec_action(),
    {
        match self {
            ParseState::CreatingOutputSink => ParseAction::CreateOutputSink,
            ParseState::Running(state) => ParseAction::Run(state.action()),
            ParseState::Rewinding => ParseAction::Rewind,
            ParseState::Decoding => ParseAction::Decode,
        }
    }

    /// Takes the outcome of the pending action and decides how the run goes on.
    ///
    /// The command is run as a blocking run. Its error, of whatever kind, ends
    /// this run with that error unchanged. Its success leads to the rewinding
    /// of the output sink and then to the decoding, whose result is the result
    /// of this run. An event that does not answer the pending action leaves
    /// the run where it was, so that the action is asked for again.
    pub fn step<T, E, D>(self, event: ParseEvent<T, E, D>) -> (next: ParseStep<T, E, D>)
        ensures
            next == self.spec_step(event),
    {
        match self {
            ParseState::CreatingOutputSink => match event {
                ParseEvent::OutputSinkCreated(Ok(())) => ParseStep::Next(
                    ParseState::Running(run(WaitMode::Blocking)),
                ),
                ParseEvent::OutputSinkCreated(Err(e)) => ParseStep::Done(
                    Err(ParseError::OutputSink(e)),
                ),
                _ => ParseStep::Next(ParseState::CreatingOutputSink),
            },
            ParseState::Running(state) => match event {
                ParseEvent::Ran(event) => lift_run(state.step(event)),
                _ => ParseStep::Next(ParseState::Running(state)),
            },
            ParseState::Rewinding => match event {
                ParseEvent::Rewound(Ok(())) => ParseStep::Next(ParseState::Decoding),
                ParseEvent::Rewound(Err(e)) => ParseStep::Done(Err(ParseError::Seek(e))),
                _ => ParseStep::Next(ParseState::Rewinding),
            },
            ParseState::Decoding => match event {
                ParseEvent::Decoded(Ok(value)) => ParseStep::Done(Ok(value)),
                ParseEvent::Decoded(Err(d)) => ParseStep::Done(Err(ParseError::Decode(d))),
                _ => ParseStep::Next(ParseState::Decoding),
            },
        }
    }
}

} // verus!
