//! The decision core of a subprocess runner.
//!
//! Running a command means asking the operating system for things (a sink for
//! the error stream, a child process, its exit status, the tail of what it
//! wrote) and deciding between the answers what to do next. This crate holds
//! the deciding half: it never touches a file or a process itself. A driver
//! performs each request and hands the answer back.

pub mod laws;
pub mod outcome;
pub mod run;
pub mod status;
pub mod structured;
pub mod tail;
