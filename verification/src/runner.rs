//! Running a saved script: how the launch ended, and what follows from it.
//!
//! A script is started directly, not through a shell, so the system loader
//! decides whether it can run. The caller starts the process and hands the
//! raw result to `classify_failure` or `classify_exit`; `run_report` maps
//! the outcome to the message and the exit code of the tool.

use vstd::prelude::*;
use vstd::string::*;
use crate::report::{Report, ReportView, Stream};

verus! {

/// The error code with which the system refuses a file that it cannot
/// execute, most often one without a usable shebang line.
pub const EXEC_FORMAT_ERROR: i32 = 8;

/// How the attempt to run a script ended.
#[derive(Debug)]
pub enum Outcome {
    /// No script of that name is in the store; nothing was started.
    NotFound,
    /// The system did not start the script.
    LaunchFailure {
        /// Whether the system gave `EXEC_FORMAT_ERROR`.
        exec_format: bool,
        /// The system's description of the error.
        reason: String,
    },
    /// The script ran and did not end with code 0.
    NonZeroExit {
        /// Its exit code, or `None` where a signal ended it.
        code: Option<i32>,
        /// The system's description of how it ended.
        status: String,
    },
    /// The script ran and ended with code 0.
    Success,
}

/// An `Outcome` as contracts see it.
pub enum OutcomeView {
    NotFound,
    LaunchFailure { exec_format: bool, reason: Seq<char> },
    NonZeroExit { code: Option<i32>, status: Seq<char> },
    Success,
}

impl View for Outcome {
    type V = OutcomeView;

    open spec fn view(&self) -> OutcomeView {
        match *self {
            Outcome::NotFound => OutcomeView::NotFound,
            Outcome::LaunchFailure { exec_format, reason } => OutcomeView::LaunchFailure {
                exec_format,
                reason: reason@,
            },
            Outcome::NonZeroExit { code, status } => OutcomeView::NonZeroExit {
                code,
                status: status@,
            },
            Outcome::Success => OutcomeView::Success,
        }
    }
}

/// The outcome of a launch that the system refused with `os_error`.
pub open spec fn failure_of(os_error: Option<i32>, reason: Seq<char>) -> OutcomeView {
    OutcomeView::LaunchFailure { exec_format: os_error == Some(EXEC_FORMAT_ERROR), reason }
}

/// The outcome of a script that ended with `code`.
pub open spec fn exit_of(code: Option<i32>, status: Seq<char>) -> OutcomeView {
    if code == Some(0i32) {
        OutcomeView::Success
    } else {
        OutcomeView::NonZeroExit { code, status }
    }
}

/// The code with which the tool ends after `outcome`: that of the script
/// where it gave one, and 1 for every failure that has no code.
pub open spec fn exit_code_of(outcome: OutcomeView) -> i32 {
    match outcome {
        OutcomeView::Success => 0,
        OutcomeView::NonZeroExit { code: Some(code), .. } => code,
        _ => 1,
    }
}

/// The text that tells the user that no script is called `name`.
pub open spec fn not_found_text(name: Seq<char>) -> Seq<char> {
    "Script '"@ + name + "' not found"@
}

/// The text for a script that the loader refused, with the hint at the
/// shebang line.
pub open spec fn exec_format_text(name: Seq<char>) -> Seq<char> {
    "Failed to execute '"@ + name
        + "': Exec format error.\nHint: Make sure the script starts with a valid shebang line (e.g., #!/bin/bash)"@
}

/// The text for any other refused launch.
pub open spec fn launch_failure_text(name: Seq<char>, reason: Seq<char>) -> Seq<char> {
    "Failed to run script '"@ + name + "': "@ + reason
}

/// The text for a script that did not end with code 0.
pub open spec fn non_zero_text(status: Seq<char>) -> Seq<char> {
    "Script exited with non-zero status: "@ + status
}

/// What is written after `outcome`, if anything.
pub open spec fn message_of(name: Seq<char>, outcome: OutcomeView) -> Option<Seq<char>> {
    match outcome {
        OutcomeView::NotFound => Some(not_found_text(name)),
        OutcomeView::LaunchFailure { exec_format, reason } => if exec_format {
            Some(exec_format_text(name))
        } else {
            Some(launch_failure_text(name, reason))
        },
        OutcomeView::NonZeroExit { status, .. } => Some(non_zero_text(status)),
        OutcomeView::Success => None,
    }
}

/// The report that ends a run of the script `name`.
pub open spec fn run_report_of(name: Seq<char>, outcome: OutcomeView) -> ReportView {
    ReportView {
        message: message_of(name, outcome),
        stream: Stream::Error,
        exit: Some(exit_code_of(outcome)),
    }
}

/// A script that ran gives the tool its own exit code, whatever it is.
pub proof fn law_exit_code_is_passed_on(name: Seq<char>, code: i32, status: Seq<char>)
    ensures
        run_report_of(name, exit_of(Some(code), status)).exit == Some(code),
{
}

/// No message is written for a script that ended with code 0, and one is
/// for every other outcome.
pub proof fn law_only_success_is_silent(name: Seq<char>, outcome: OutcomeView)
    ensures
        run_report_of(name, outcome).message is None <==> outcome is Success,
{
}

/// A script that the system refuses to start ends the tool with code 1;
/// where the refusal is `EXEC_FORMAT_ERROR`, the message is the hint at the
/// shebang line.
pub proof fn law_refused_launch_ends_with_one(
    name: Seq<char>,
    os_error: Option<i32>,
    reason: Seq<char>,
)
    ensures
        run_report_of(name, failure_of(os_error, reason)).exit == Some(1i32),
        os_error == Some(EXEC_FORMAT_ERROR) ==> run_report_of(
            name,
            failure_of(os_error, reason),
        ).message == Some(exec_format_text(name)),
        os_error != Some(EXEC_FORMAT_ERROR) ==> run_report_of(
            name,
            failure_of(os_error, reason),
        ).message == Some(launch_failure_text(name, reason)),
{
}

/// Classifies a launch that the system refused. `os_error` is the system's
/// error code, where it gave one, and `reason` its description.
pub fn classify_failure(os_error: Option<i32>, reason: String) -> (outcome: Outcome)
    ensures
        outcome@ == failure_of(os_error, reason@),
{
    let exec_format = match os_error {
        Some(code) => code == EXEC_FORMAT_ERROR,
        None => false,
    };
    Outcome::LaunchFailure { exec_format, reason }
}

/// Classifies the end of a script that ran. `code` is its exit code, `None`
/// where a signal ended it, and `status` the system's description.
pub fn classify_exit(code: Option<i32>, status: String) -> (outcome: Outcome)
    ensures
        outcome@ == exit_of(code, status@),
{
    match code {
        Some(0) => Outcome::Success,
        _ => Outcome::NonZeroExit { code, status },
    }
}

/// Tells the user that no script is called `name`.
pub fn not_found_message(name: &str) -> (text: String)
    ensures
        text@ == not_found_text(name@),
{
    String::from_str("Script '").concat(name).concat("' not found")
}

/// Maps the outcome of running the script `name` to what the tool writes
/// and the code it ends with.
pub fn run_report(name: &str, outcome: &Outcome) -> (report: Report)
    ensures
        report@ == run_report_of(name@, outcome@),
{
    match outcome {
        Outcome::NotFound => Report::complaint(not_found_message(name), Some(1)),
        Outcome::LaunchFailure { exec_format, reason } => {
            let text = if *exec_format {
                String::from_str("Failed to execute '").concat(name).concat(
                    "': Exec format error.\nHint: Make sure the script starts with a valid shebang line (e.g., #!/bin/bash)",
                )
            } else {
                String::from_str("Failed to run script '").concat(name).concat("': ").concat(
                    reason.as_str(),
                )
            };
            Report::complaint(text, Some(1))
        },
        Outcome::NonZeroExit { code, status } => {
            let text = String::from_str("Script exited with non-zero status: ").concat(
                status.as_str(),
            );
            let exit: i32 = match code {
                Some(given) => *given,
                None => 1,
            };
            Report::complaint(text, Some(exit))
        },
        Outcome::Success => Report { message: None, stream: Stream::Error, exit: Some(0) },
    }
}

} // verus!
