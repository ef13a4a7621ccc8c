//! The status checker: from an exit outcome to success or a reported failure.
//!
//! A successful outcome is success at once, and the error sink is never
//! touched. Any other outcome is a failure that carries the tail of the error
//! sink, which takes two requests to the sink: its size, then the read.

use vstd::prelude::*;
use crate::outcome::ExitOutcome;
use crate::tail::{
    last_utf8_content,
    spec_diagnostic,
    spec_read,
    spec_tail,
    spec_tail_len,
    tail_len,
    REPLACEMENT_CHARACTER,
};
use vstd::utf8::{decode_utf8, valid_utf8};

verus! {

/// A command that ran and ended without success.
///
/// It holds what the process reported and what could be read from the end of
/// its error stream. The command line is not part of it: a caller that wants
/// it in a report adds it.
#[derive(Debug, PartialEq, Eq)]
pub struct CommandFailure {
    /// How the process ended.
    pub outcome: ExitOutcome,
    /// What was read from the end of the error sink, or `None` where it could
    /// not be read.
    pub stderr_tail: Option<Vec<u8>>,
}

/// The message of a failure with the given status rendering and diagnostic.
pub open spec fn spec_failure_message(debug: Seq<char>, diagnostic: Seq<char>) -> Seq<char> {
    "Subprocess failed: "@ + debug + "\n"@ + diagnostic
}

impl CommandFailure {
    /// The diagnostic text of this failure.
    pub open spec fn spec_diagnostic(&self) -> Seq<char> {
        spec_diagnostic(spec_read(self.stderr_tail))
    }

    /// The message of this failure.
    pub open spec fn spec_message(&self) -> Seq<char> {
        spec_failure_message(self.outcome.debug@, self.spec_diagnostic())
    }

    /// The tail of the error stream as text: see [`last_utf8_content`].
    pub fn diagnostic(&self) -> (text: String)
        ensures
            text@ == self.spec_diagnostic(),
            self.stderr_tail matches Some(bytes) ==> if valid_utf8(spec_tail(bytes@)) {
                text@ == decode_utf8(spec_tail(bytes@))
            } else {
                text@.contains(REPLACEMENT_CHARACTER)
            },
    {
        last_utf8_content(&self.stderr_tail)
    }

    /// The message of this failure: `Subprocess failed: `, the status as the
    /// platform renders it, a newline, and the diagnostic text.
    ///
    /// A tail that is valid UTF-8 stands in the message as it was written. One
    /// that is not still gives a message, in which the replacement character
    /// marks what could not be decoded.
    pub fn message(&self) -> (msg: String)
        ensures
            msg@ == self.spec_message(),
            self.stderr_tail matches Some(bytes) ==> if valid_utf8(spec_tail(bytes@)) {
                msg@ == spec_failure_message(self.outcome.debug@, decode_utf8(spec_tail(bytes@)))
            } else {
                msg@.contains(REPLACEMENT_CHARACTER)
            },
    {
        let mut msg = String::from_str("Subprocess failed: ");
        msg.append(self.outcome.debug.as_str());
        msg.append("\n");
        let diagnostic = self.diagnostic();
        msg.append(diagnostic.as_str());
        proof {
            if diagnostic@.contains(REPLACEMENT_CHARACTER) {
                let i = choose|i: int|
                    0 <= i < diagnostic@.len() && diagnostic@[i] == REPLACEMENT_CHARACTER;
                let head = msg@.len() - diagnostic@.len();
                assert(msg@[head + i] == REPLACEMENT_CHARACTER);
            }
        }
        msg
    }
}

/// What a status check asks of the error sink.
#[derive(Clone, Copy, Debug, PartialEq, Eq)]
pub enum SinkRequest {
    /// The total size of the sink.
    Size,
    /// The last `len` bytes: seek to `len` bytes before the end, then read to
    /// the end.
    Tail { len: u16 },
}

/// What the error sink answered.
#[derive(Debug, PartialEq, Eq)]
pub enum SinkReply {
    /// The size, or `None` where it could not be determined.
    Size(Option<u64>),
    /// The bytes read, or `None` where seeking or reading failed.
    Tail(Option<Vec<u8>>),
}

/// A status check that is waiting for the error sink.
#[derive(Debug, PartialEq, Eq)]
pub enum StatusCheck {
    /// The size of the sink has been asked for.
    Sizing { outcome: ExitOutcome },
    /// The last `len` bytes of the sink have been asked for.
    Reading { outcome: ExitOutcome, len: u16 },
}

/// Where a status check stands after a step.
#[derive(Debug, PartialEq, Eq)]
pub enum CheckStep {
    /// The check goes on: perform the state's request and hand in the reply.
    Next(StatusCheck),
    /// The check is over.
    Done(Result<(), CommandFailure>),
}

/// The first step of a status check: success for a successful outcome,
/// otherwise the wait for the size of the error sink.
pub open spec fn spec_check_status(outcome: ExitOutcome) -> CheckStep {
    if outcome.success {
        CheckStep::Done(Ok(()))
    } else {
        CheckStep::Next(StatusCheck::Sizing { outcome })
    }
}

/// Begins the check of an exit outcome.
///
/// A successful outcome is done at once, without a request to the error sink.
pub fn check_status(outcome: ExitOutcome) -> (step: CheckStep)
    ensures
        step == spec_check_status(outcome),
{
    if outcome.success {
        CheckStep::Done(Ok(()))
    } else {
        CheckStep::Next(StatusCheck::Sizing { outcome })
    }
}

impl StatusCheck {
    /// The request that this state is waiting on.
    pub open spec fn spec_request(self) -> SinkRequest {
        match self {
            StatusCheck::Sizing { .. } => SinkRequest::Size,
            StatusCheck::Reading { len, .. } => SinkRequest::Tail { len },
        }
    }

    /// The step taken on a reply. A reply that does not answer the pending
    /// request changes nothing.
    pub open spec fn spec_step(self, reply: SinkReply) -> CheckStep {
        match (self, reply) {
            (StatusCheck::Sizing { outcome }, SinkReply::Size(size)) => CheckStep::Next(
                StatusCheck::Reading { outcome, len: spec_tail_len(size) as u16 },
            ),
            (StatusCheck::Reading { outcome, .. }, SinkReply::Tail(read)) => CheckStep::Done(
                Err(CommandFailure { outcome, stderr_tail: read }),
            ),
            (state, _) => CheckStep::Next(state),
        }
    }

    /// The request to perform in this state.
    pub fn request(&self) -> (request: SinkRequest)
        ensures
            request == self.spec_request(),
    {
        match self {
            StatusCheck::Sizing { .. } => SinkRequest::Size,
            StatusCheck::Reading { len, .. } => SinkRequest::Tail { len: *len },
        }
    }

    /// Takes the reply of the error sink.
    ///
    /// The size decides how much of the tail is asked for, and the read ends
    /// the check with the failure. A reply that does not answer the pending
    /// request leaves the check where it was, so that the request is made again.
    pub fn step(self, reply: SinkReply) -> (next: CheckStep)
        ensures
            next == self.spec_step(reply),
    {
        match self {
            StatusCheck::Sizing { outcome } => match reply {
                SinkReply::Size(size) => CheckStep::Next(
                    StatusCheck::Reading { outcome, len: tail_len(size) },
                ),
                SinkReply::Tail(_) => CheckStep::Next(StatusCheck::Sizing { outcome }),
            },
            StatusCheck::Reading { outcome, len } => match reply {
                SinkReply::Tail(read) => CheckStep::Done(
                    Err(CommandFailure { outcome, stderr_tail: read }),
                ),
                SinkReply::Size(_) => CheckStep::Next(StatusCheck::Reading { outcome, len }),
            },
        }
    }
}

} // verus!
