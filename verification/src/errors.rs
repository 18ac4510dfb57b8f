//! The error taxonomy of the process lifecycle.
//!
//! Every failure carries enough context — the offending pattern or the
//! underlying operating-system error text — to diagnose it without
//! inspecting internals.

use vstd::prelude::*;
use vstd::string::StringExecFns;

verus! {

/// Everything that can go wrong while starting, awaiting or stopping a
/// child process.
#[derive(Debug)]
pub enum ProcessError {
    /// The command list was empty; a caller error, never retried.
    InvalidCommand,
    /// The executable could not be located or launched, or the log file
    /// could not be created. Carries the operating-system error text.
    SpawnError(String),
    /// The log file could not be opened or read while polling. Carries
    /// the operating-system error text.
    IoError(String),
    /// The pattern did not appear in the log before the deadline.
    /// Carries the pattern that was awaited.
    ReadinessTimeout(String),
    /// The termination request could not be delivered. Carries the
    /// operating-system error text.
    SignalError(String),
}

/// The diagnostic text of each error variant: a fixed description,
/// followed by the context the variant carries.
pub open spec fn spec_error_message(e: ProcessError) -> Seq<char> {
    match e {
        ProcessError::InvalidCommand => "no valid command provided"@,
        ProcessError::SpawnError(m) => "failed to spawn process: "@ + m@,
        ProcessError::IoError(m) => "failed to read log file: "@ + m@,
        ProcessError::ReadinessTimeout(p) => "timed out waiting for readiness pattern: "@ + p@,
        ProcessError::SignalError(m) => "failed to kill process: "@ + m@,
    }
}

impl ProcessError {
    /// The human-readable description of this error.
    pub fn message(&self) -> (r: String)
        ensures
            r@ == spec_error_message(*self),
    {
        match self {
            ProcessError::InvalidCommand => "no valid command provided".to_owned(),
            ProcessError::SpawnError(m) => {
                let mut s = "failed to spawn process: ".to_owned();
                s.append(m.as_str());
                s
            },
            ProcessError::IoError(m) => {
                let mut s = "failed to read log file: ".to_owned();
                s.append(m.as_str());
                s
            },
            ProcessError::ReadinessTimeout(p) => {
                let mut s = "timed out waiting for readiness pattern: ".to_owned();
                s.append(p.as_str());
                s
            },
            ProcessError::SignalError(m) => {
                let mut s = "failed to kill process: ".to_owned();
                s.append(m.as_str());
                s
            },
        }
    }
}

} // verus!
