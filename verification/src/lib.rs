//! Readiness detection for a spawned child process.
//!
//! A parent tool starts a child with its output captured in a log file,
//! waits until a line of that file contains a given pattern, and stops
//! the child on demand. This crate holds the decision core of that
//! lifecycle: validating and describing the command, deriving the log
//! file path, searching lines for the pattern, and deciding on each
//! poll iteration whether to report readiness, keep waiting, time out,
//! or fail. The surrounding process and file handling performs these
//! decisions against the operating system.

pub mod command;
pub mod errors;
pub mod matching;
pub mod poll;
