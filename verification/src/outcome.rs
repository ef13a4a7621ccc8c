//! How a child process ended.

use vstd::prelude::*;

verus! {

/// The termination of a completed child process.
///
/// `debug` is the platform's own rendering of the status. It differs between
/// platforms and is carried as opaque text: nothing here reads inside it.
#[derive(Debug, PartialEq, Eq)]
pub struct ExitOutcome {
    /// Whether the process reported success.
    pub success: bool,
    /// The debug form of the status, as the platform prints it.
    pub debug: String,
}

} // verus!
