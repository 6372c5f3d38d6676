//! How a run ended, and the line that reports it.

use crate::manifest::BuildError;
use crate::text::{append_decimal, decimal, joined};
use vstd::prelude::*;
use vstd::string::*;

verus! {

/// The mathematical value of a [`RunOutcome`].
pub enum Outcome {
    Success,
    Failure { reason: Seq<char>, exit_code: Option<i32> },
}

/// The result of one run: success, or failure with a reason for the reader
/// and, where the encoder ran and ended with a code, that code.
#[derive(Debug, PartialEq, Eq)]
pub enum RunOutcome {
    Success,
    Failure { reason: String, exit_code: Option<i32> },
}

impl View for RunOutcome {
    type V = Outcome;

    open spec fn view(&self) -> Outcome {
        match *self {
            RunOutcome::Success => Outcome::Success,
            RunOutcome::Failure { reason, exit_code } => Outcome::Failure {
                reason: reason@,
                exit_code,
            },
        }
    }
}

/// The number reported for an encoder that has ended: its exit code, or -1
/// where it ended without one, as a process stopped by a signal does.
pub open spec fn reported_code(code: Option<i32>) -> i32 {
    match code {
        Some(c) => c,
        None => -1i32,
    }
}

/// The outcome of a run whose encoder has ended: success on exit code zero,
/// and on anything else a failure whose reason names the reported code.
pub open spec fn exit_outcome(code: Option<i32>) -> Outcome {
    if reported_code(code) == 0 {
        Outcome::Success
    } else {
        Outcome::Failure {
            reason: "FFmpeg failed with code "@ + decimal(reported_code(code) as int),
            exit_code: code,
        }
    }
}

/// The outcome of a run whose manifest file could not be made ready.
pub open spec fn setup_failure(error: BuildError) -> Outcome {
    Outcome::Failure { reason: error.spec_reason(), exit_code: None }
}

/// The outcome of a run whose encoder could not be started; `detail` is the
/// system's description of the failure.
pub open spec fn launch_failure(detail: Seq<char>) -> Outcome {
    Outcome::Failure { reason: "Failed to launch ffmpeg: "@ + detail, exit_code: None }
}

/// The line that reports an outcome, without its line feed: the success
/// marker and message, or the failure marker and the reason.
pub open spec fn status_line(outcome: Outcome) -> Seq<char> {
    match outcome {
        Outcome::Success => "✅ FFmpeg finished successfully."@,
        Outcome::Failure { reason, .. } => "❌ "@ + reason,
    }
}

/// The number to report for an encoder that has ended.
pub fn exit_code_or_unknown(code: Option<i32>) -> (c: i32)
    ensures
        c == reported_code(code),
{
    match code {
        Some(c) => c,
        None => -1,
    }
}

impl RunOutcome {
    /// Judges a run by how its encoder ended.
    pub fn from_exit(code: Option<i32>) -> (outcome: RunOutcome)
        ensures
            outcome@ == exit_outcome(code),
    {
        let reported = exit_code_or_unknown(code);
        if reported == 0 {
            RunOutcome::Success
        } else {
            let mut reason = String::from_str("FFmpeg failed with code ");
            append_decimal(&mut reason, reported);
            RunOutcome::Failure { reason, exit_code: code }
        }
    }

    /// The failure of a run whose manifest file could not be made ready.
    pub fn from_build_error(error: &BuildError) -> (outcome: RunOutcome)
        ensures
            outcome@ == setup_failure(*error),
    {
        RunOutcome::Failure { reason: error.reason(), exit_code: None }
    }

    /// The failure of a run whose encoder could not be started.
    pub fn from_launch_error(detail: &str) -> (outcome: RunOutcome)
        ensures
            outcome@ == launch_failure(detail@),
    {
        RunOutcome::Failure { reason: joined("Failed to launch ffmpeg: ", detail), exit_code: None }
    }

    pub fn is_success(&self) -> (b: bool)
        ensures
            b == (self@ is Success),
    {
        match self {
            RunOutcome::Success => true,
            RunOutcome::Failure { .. } => false,
        }
    }

    /// The line that reports this outcome, without its line feed.
    pub fn status_line(&self) -> (line: String)
        ensures
            line@ == status_line(self@),
    {
        match self {
            RunOutcome::Success => String::from_str("✅ FFmpeg finished successfully."),
            RunOutcome::Failure { reason, .. } => joined("❌ ", reason.as_str()),
        }
    }
}

} // verus!
