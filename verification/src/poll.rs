//! The bounded readiness poll.
//!
//! Waiting for readiness is a loop: look at the clock, read the log
//! file, scan its lines for the pattern, and either report readiness,
//! give up, or sleep a fixed interval and retry. The clock, the file
//! and the sleep belong to the surrounding process handling; the
//! decision taken on each iteration is made here, as a total function
//! of the elapsed time, the read outcome and the pattern.

use vstd::prelude::*;
use crate::matching::some_line_matches;
use crate::matching::find_matching_line;

verus! {

/// Maximum number of seconds the readiness poll waits for the pattern,
/// measured from the start of the wait on a monotonic clock.
pub const READINESS_TIMEOUT_SECS: u64 = 30;

/// Number of seconds slept between unsuccessful scans of the log file.
pub const POLL_INTERVAL_SECS: u64 = 2;

/// The action one poll iteration takes after looking at the clock and
/// attempting to read the log file.
#[derive(Clone, Copy, Debug, PartialEq, Eq)]
pub enum PollStep {
    /// A line containing the pattern was found: the process is ready.
    Ready,
    /// No match yet: sleep for `POLL_INTERVAL_SECS` and scan again.
    Sleep,
    /// The deadline passed before the pattern appeared.
    TimedOut,
    /// The log file could not be opened or read before the deadline.
    ReadFailed,
}

/// The decision of one poll iteration. The deadline is checked first:
/// once `elapsed_secs` reaches the timeout the poll gives up, whatever
/// the last read returned. Before the deadline, a failed read (`None`)
/// aborts the wait, a read with a matching line reports readiness, and
/// a read without one asks for another round after the fixed sleep.
pub open spec fn spec_poll_step(
    elapsed_secs: u64,
    read: Option<Seq<Seq<char>>>,
    pattern: Seq<char>,
) -> PollStep {
    if elapsed_secs >= READINESS_TIMEOUT_SECS {
        PollStep::TimedOut
    } else {
        match read {
            None => PollStep::ReadFailed,
            Some(lines) => if some_line_matches(lines, pattern) {
                PollStep::Ready
            } else {
                PollStep::Sleep
            },
        }
    }
}

/// Decides one iteration of the readiness poll. `elapsed_secs` is the
/// whole seconds elapsed since the wait began; `read` holds the lines
/// of the log file, or `None` if the file could not be opened or read.
pub fn next_poll_step(elapsed_secs: u64, read: &Option<Vec<String>>, pattern: &str) -> (r:
    PollStep)
    ensures
        r == spec_poll_step(elapsed_secs, read.deep_view(), pattern@),
{
    if elapsed_secs >= READINESS_TIMEOUT_SECS {
        PollStep::TimedOut
    } else {
        match read {
            None => PollStep::ReadFailed,
            Some(lines) => {
                match find_matching_line(lines, pattern) {
                    Some(_) => PollStep::Ready,
                    None => PollStep::Sleep,
                }
            },
        }
    }
}

/// The poll gives up exactly at the deadline and never before: the
/// decision is `TimedOut` if and only if the elapsed time has reached
/// `READINESS_TIMEOUT_SECS`, whatever the log file held.
pub proof fn lemma_timeout_exactly_at_deadline(
    elapsed_secs: u64,
    read: Option<Seq<Seq<char>>>,
    pattern: Seq<char>,
)
    ensures
        spec_poll_step(elapsed_secs, read, pattern) == PollStep::TimedOut <==> elapsed_secs
            >= READINESS_TIMEOUT_SECS,
{
}

/// Once the child has written a line containing the pattern, a scan of
/// that log before the deadline reports readiness.
pub proof fn lemma_ready_once_pattern_written(
    lines: Seq<Seq<char>>,
    k: int,
    pattern: Seq<char>,
    elapsed_secs: u64,
)
    requires
        0 <= k < lines.len(),
        crate::matching::contains_pattern(lines[k], pattern),
        elapsed_secs < READINESS_TIMEOUT_SECS,
    ensures
        spec_poll_step(elapsed_secs, Some(lines), pattern) == PollStep::Ready,
{
    assert(some_line_matches(lines, pattern));
}

/// A pattern that has appeared in the log stays found: a scan of any
/// later, longer read reports `Ready` before the deadline, even if an
/// earlier scan saw only a prefix of the file.
pub proof fn lemma_rescan_still_ready(
    earlier: Seq<Seq<char>>,
    later: Seq<Seq<char>>,
    pattern: Seq<char>,
    elapsed_secs: u64,
)
    requires
        earlier.is_prefix_of(later),
        some_line_matches(earlier, pattern),
        elapsed_secs < READINESS_TIMEOUT_SECS,
    ensures
        spec_poll_step(elapsed_secs, Some(later), pattern) == PollStep::Ready,
{
    crate::matching::lemma_match_survives_growth(earlier, later, pattern);
}

} // verus!
