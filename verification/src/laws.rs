//! What holds of every run.
//!
//! The laws are stated against a [`Host`]: the operating system as one run
//! meets it, reduced to the answer it gives to each request. Driving a run
//! against a host is handing each pending action's answer to the run until it
//! is over. A [`ParseHost`] is the same for a structured-output run.

use vstd::prelude::*;
use crate::outcome::ExitOutcome;
use crate::run::{spec_run, RunAction, RunError, RunEvent, RunState, RunStep, WaitMode};
use crate::status::{spec_failure_message, CommandFailure, SinkReply, SinkRequest};
use crate::structured::{
    spec_run_and_parse_json,
    ParseAction,
    ParseError,
    ParseEvent,
    ParseState,
    ParseStep,
};
use crate::tail::{
    lemma_tail_is_bounded_suffix,
    lemma_tail_of_tail,
    lossy_utf8,
    spec_clamp,
    spec_read_failed,
    spec_tail,
    MAX_STDERR_BYTES,
};

verus! {

/// The error sink of a run, as it answers after the child has ended.
pub struct ErrorSink {
    /// The answer to a request for the size.
    pub size: Option<u64>,
    /// The answer to a request for the last `len` bytes.
    pub tail: spec_fn(u16) -> Option<Vec<u8>>,
}

impl ErrorSink {
    /// The reply of this sink to a request.
    pub open spec fn reply(self, request: SinkRequest) -> SinkReply {
        match request {
            SinkRequest::Size => SinkReply::Size(self.size),
            SinkRequest::Tail { len } => SinkReply::Tail((self.tail)(len)),
        }
    }

    /// This sink holds `content` and answers every request truthfully: with
    /// the length of the content, and with its last `len` bytes wherever it
    /// holds that many.
    pub open spec fn holds(self, content: Seq<u8>) -> bool {
        &&& content.len() <= u64::MAX
        &&& self.size == Some(content.len() as u64)
        &&& forall|len: u16|
            len <= content.len() ==> (#[trigger] (self.tail)(len) matches Some(bytes) && bytes@
                == content.subrange(content.len() - len, content.len() as int))
    }

    /// This sink cannot be read at all.
    pub open spec fn unreadable(self) -> bool {
        forall|len: u16| #[trigger] (self.tail)(len) is None
    }
}

/// The operating system as one run meets it.
pub struct Host<E> {
    /// Whether the error sink can be created and attached.
    pub sink: Result<(), E>,
    /// Whether the child can be started.
    pub spawn: Result<(), E>,
    /// How waiting for the child ends.
    pub exit: Result<ExitOutcome, E>,
    /// The error sink once the child has ended.
    pub stderr: ErrorSink,
}

impl<E> Host<E> {
    /// The event with which this host answers an action.
    pub open spec fn answer(self, action: RunAction) -> RunEvent<E> {
        match action {
            RunAction::CreateSink => RunEvent::SinkCreated(self.sink),
            RunAction::Spawn => RunEvent::Spawned(self.spawn),
            RunAction::Wait(_) => RunEvent::Exited(self.exit),
            RunAction::AskSink(request) => RunEvent::SinkReplied(self.stderr.reply(request)),
        }
    }

    /// The child of this host starts and ends with `outcome`.
    pub open spec fn exits_with(self, outcome: ExitOutcome) -> bool {
        &&& self.sink is Ok
        &&& self.spawn is Ok
        &&& self.exit == Ok::<ExitOutcome, E>(outcome)
    }
}

/// The result of driving a run from `state` against `host`, or `None` where
/// the run is not over after `fuel` actions.
pub open spec fn run_to_end<E>(state: RunState, host: Host<E>, fuel: nat) -> Option<
    Result<(), RunError<E>>,
>
    decreases fuel,
{
    if fuel == 0 {
        None
    } else {
        match state.spec_step(host.answer(state.spec_action())) {
            RunStep::Done(result) => Some(result),
            RunStep::Next(next) => run_to_end(next, host, (fuel - 1) as nat),
        }
    }
}

/// The most actions that a run asks for.
pub open spec fn max_run_actions() -> nat {
    5
}

/// The result of a whole run against `host`.
pub open spec fn run_result<E>(mode: WaitMode, host: Host<E>) -> Option<Result<(), RunError<E>>> {
    run_to_end(spec_run(mode), host, max_run_actions())
}

/// Every run ends: against any host, it is over after at most five actions.
pub proof fn lemma_run_ends<E>(mode: WaitMode, host: Host<E>)
    ensures
        run_result(mode, host) is Some,
{
    reveal_with_fuel(run_to_end, 6);
}

/// An error of the operating system ends the run with that error, under the
/// step at which it came: the sink, the start of the child, or the wait. None
/// of them is reported as a failure of the command.
pub proof fn lemma_os_error_ends_run<E>(mode: WaitMode, host: Host<E>)
    ensures
        host.sink matches Err(e) ==> run_result(mode, host) == Some(
            Err::<(), RunError<E>>(RunError::Sink(e)),
        ),
        host.sink is Ok ==> (host.spawn matches Err(e) ==> run_result(mode, host) == Some(
            Err::<(), RunError<E>>(RunError::Spawn(e)),
        )),
        host.sink is Ok && host.spawn is Ok ==> (host.exit matches Err(e) ==> run_result(
            mode,
            host,
        ) == Some(Err::<(), RunError<E>>(RunError::Wait(e)))),
{
    reveal_with_fuel(run_to_end, 6);
}

/// A command that ends with success makes the run a success, whatever its
/// error stream holds and whether or not the sink can be read.
pub proof fn lemma_success_is_ok<E>(mode: WaitMode, host: Host<E>, outcome: ExitOutcome)
    requires
        host.exits_with(outcome),
        outcome.success,
    ensures
        run_result(mode, host) == Some(Ok::<(), RunError<E>>(())),
{
    reveal_with_fuel(run_to_end, 6);
}

/// A command that ends without success makes the run a failure of the
/// command, whatever the sink answers: reading the diagnostic never turns
/// into an error of its own. The failure holds the outcome and what the sink
/// gave as the tail of the length that its size called for.
pub proof fn lemma_failure_is_reported<E>(mode: WaitMode, host: Host<E>, outcome: ExitOutcome)
    requires
        host.exits_with(outcome),
        !outcome.success,
    ensures
        run_result(mode, host) == Some(
            Err::<(), RunError<E>>(
                RunError::Failed(
                    CommandFailure {
                        outcome,
                        stderr_tail: (host.stderr.tail)(
                            crate::tail::spec_tail_len(host.stderr.size) as u16,
                        ),
                    },
                ),
            ),
        ),
{
    reveal_with_fuel(run_to_end, 6);
}

/// A command that ends without success, with `content` in its error stream,
/// fails with a message made of the status as the platform renders it and of
/// the tail of `content`, decoded with replacement. The tail is the last
/// [`MAX_STDERR_BYTES`] bytes at most, however long the stream is.
pub proof fn lemma_failure_holds_status_and_tail<E>(
    mode: WaitMode,
    host: Host<E>,
    outcome: ExitOutcome,
    content: Seq<u8>,
)
    requires
        host.exits_with(outcome),
        !outcome.success,
        host.stderr.holds(content),
    ensures
        run_result(mode, host) matches Some(Err(RunError::Failed(failure))) && {
            &&& failure.outcome == outcome
            &&& failure.spec_diagnostic() == lossy_utf8(spec_tail(content))
            &&& failure.spec_message() == "Subprocess failed: "@ + outcome.debug@ + "\n"@
                + lossy_utf8(spec_tail(content))
        },
        spec_tail(content).len() <= MAX_STDERR_BYTES,
{
    lemma_failure_is_reported(mode, host, outcome);
    lemma_tail_is_bounded_suffix(content);
    lemma_tail_of_tail(content);
    let len = spec_clamp(content.len()) as u16;
    assert((host.stderr.tail)(len) matches Some(bytes) && bytes@ == spec_tail(content));
}

/// Where the error sink cannot be read, the failure is still the failure of
/// the command, and its diagnostic is the placeholder.
pub proof fn lemma_unreadable_sink_gives_placeholder<E>(
    mode: WaitMode,
    host: Host<E>,
    outcome: ExitOutcome,
)
    requires
        host.exits_with(outcome),
        !outcome.success,
        host.stderr.unreadable(),
    ensures
        run_result(mode, host) matches Some(Err(RunError::Failed(failure))) && {
            &&& failure.outcome == outcome
            &&& failure.spec_diagnostic() == spec_read_failed()
            &&& failure.spec_message() == spec_failure_message(outcome.debug@, spec_read_failed())
        },
{
    lemma_failure_is_reported(mode, host, outcome);
}

/// The diagnostic of a failure is made from no more than
/// [`MAX_STDERR_BYTES`] bytes, whatever was handed in as the tail: it is the
/// placeholder, or the decoding of a byte sequence of at most that length.
pub proof fn lemma_diagnostic_is_bounded(failure: CommandFailure)
    ensures
        failure.spec_diagnostic() == spec_read_failed() || exists|bytes: Seq<u8>|
            bytes.len() <= MAX_STDERR_BYTES && failure.spec_diagnostic() == #[trigger] lossy_utf8(
                bytes,
            ),
{
    match failure.stderr_tail {
        Some(read) => {
            lemma_tail_is_bounded_suffix(read@);
            assert(failure.spec_diagnostic() == lossy_utf8(spec_tail(read@)));
        },
        None => {},
    }
}

/// The message of a failure begins with the fixed words and the status, and
/// ends with the diagnostic: both can be found in it whole.
pub proof fn lemma_message_contains_status_and_diagnostic(failure: CommandFailure)
    ensures
        failure.spec_message().len() == 19 + failure.outcome.debug@.len() + 1
            + failure.spec_diagnostic().len(),
        failure.spec_message().subrange(19, 19 + failure.outcome.debug@.len() as int)
            == failure.outcome.debug@,
        failure.spec_message().subrange(
            20 + failure.outcome.debug@.len() as int,
            failure.spec_message().len() as int,
        ) == failure.spec_diagnostic(),
{
    reveal_strlit("Subprocess failed: ");
    reveal_strlit("\n");
    let message = failure.spec_message();
    let debug = failure.outcome.debug@;
    assert(message.subrange(19, 19 + debug.len() as int) =~= debug);
    assert(message.subrange(20 + debug.len() as int, message.len() as int)
        =~= failure.spec_diagnostic());
}

/// How the driver waits makes no difference to the result: a blocking and a
/// suspending run against the same host end alike.
pub proof fn lemma_wait_mode_is_not_observed<E>(host: Host<E>)
    ensures
        run_result(WaitMode::Blocking, host) == run_result(WaitMode::Suspending, host),
{
    reveal_with_fuel(run_to_end, 6);
}

/// The operating system and the decoder as one structured-output run meets
/// them.
pub struct ParseHost<T, E, D> {
    /// Whether the output sink can be created and attached.
    pub output_sink: Result<(), E>,
    /// What the run of the command meets.
    pub run: Host<E>,
    /// Whether the output sink can be rewound.
    pub rewind: Result<(), E>,
    /// What decoding the output gives.
    pub decode: Result<T, D>,
}

impl<T, E, D> ParseHost<T, E, D> {
    /// The event with which this host answers an action.
    pub open spec fn answer(self, action: ParseAction) -> ParseEvent<T, E, D> {
        match action {
            ParseAction::CreateOutputSink => ParseEvent::OutputSinkCreated(self.output_sink),
            ParseAction::Run(action) => ParseEvent::Ran(self.run.answer(action)),
            ParseAction::Rewind => ParseEvent::Rewound(self.rewind),
            ParseAction::Decode => ParseEvent::Decoded(self.decode),
        }
    }

    /// What the decoder's answer makes of a run that got as far as decoding.
    pub open spec fn decoded(self) -> Result<T, ParseError<E, D>> {
        match self.decode {
            Ok(value) => Ok(value),
            Err(d) => Err(ParseError::Decode(d)),
        }
    }
}

/// The result of driving a structured-output run from `state` against
/// `host`, or `None` where the run is not over after `fuel` actions.
pub open spec fn parse_to_end<T, E, D>(
    state: ParseState,
    host: ParseHost<T, E, D>,
    fuel: nat,
) -> Option<Result<T, ParseError<E, D>>>
    decreases fuel,
{
    if fuel == 0 {
        None
    } else {
        match state.spec_step(host.answer(state.spec_action())) {
            ParseStep::Done(result) => Some(result),
            ParseStep::Next(next) => parse_to_end(next, host, (fuel - 1) as nat),
        }
    }
}

/// The most actions that a structured-output run asks for.
pub open spec fn max_parse_actions() -> nat {
    max_run_actions() + 3
}

/// The result of a whole structured-output run against `host`.
pub open spec fn parse_result<T, E, D>(host: ParseHost<T, E, D>) -> Option<
    Result<T, ParseError<E, D>>,
> {
    parse_to_end(spec_run_and_parse_json(), host, max_parse_actions())
}

/// Every structured-output run ends: against any host, it is over after at
/// most eight actions.
pub proof fn lemma_parse_ends<T, E, D>(host: ParseHost<T, E, D>)
    ensures
        parse_result(host) is Some,
{
    reveal_with_fuel(parse_to_end, 9);
}

/// Where the output sink cannot be created, the run ends with that error and
/// the command is never started.
pub proof fn lemma_output_sink_error_ends_parse<T, E, D>(host: ParseHost<T, E, D>, e: E)
    requires
        host.output_sink == Err::<(), E>(e),
    ensures
        parse_result(host) == Some(Err::<T, ParseError<E, D>>(ParseError::OutputSink(e))),
{
    reveal_with_fuel(parse_to_end, 2);
}

/// Where the command does not succeed, the structured-output run ends with
/// the error of the run, unchanged. The output is not decoded: what rewinding
/// and decoding would have answered makes no difference.
pub proof fn lemma_failed_run_is_not_decoded<T, E, D>(host: ParseHost<T, E, D>, e: RunError<E>)
    requires
        host.output_sink is Ok,
        run_result(WaitMode::Blocking, host.run) == Some(Err::<(), RunError<E>>(e)),
    ensures
        parse_result(host) == Some(Err::<T, ParseError<E, D>>(ParseError::Run(e))),
{
    reveal_with_fuel(parse_to_end, 9);
    reveal_with_fuel(run_to_end, 6);
}

/// Where the command succeeds, the output sink is rewound and decoded, and
/// the result is the decoder's: the value, or a decoding error, which is not
/// an error of the run. A failure to rewind is an error of its own.
pub proof fn lemma_successful_run_is_decoded<T, E, D>(host: ParseHost<T, E, D>)
    requires
        host.output_sink is Ok,
        run_result(WaitMode::Blocking, host.run) == Some(Ok::<(), RunError<E>>(())),
    ensures
        parse_result(host) == Some(
            match host.rewind {
                Ok(_) => host.decoded(),
                Err(e) => Err(ParseError::Seek(e)),
            },
        ),
{
    reveal_with_fuel(parse_to_end, 9);
    reveal_with_fuel(run_to_end, 6);
}

} // verus!
