//! The editor that scripts are opened in.
//!
//! The user may name the editor as a command line, such as `code --wait`:
//! its first word is the program and the others are arguments that come
//! before the path of the script. Without such a setting, or with one that
//! holds no word, `FALLBACK_EDITOR` is used.

use vstd::prelude::*;
use vstd::string::*;
use crate::report::{complaint, silent, Report, ReportView};
use crate::text::{join, joined, split_words, words};

verus! {

/// The editor that is used where the user names none.
pub const FALLBACK_EDITOR: &'static str = "nano";

/// An editor invocation: the program, the arguments that the user's setting
/// gave, and the path of the file to open.
#[derive(Debug)]
pub struct EditorCommand {
    pub program: String,
    pub options: Vec<String>,
    pub path: String,
}

/// An `EditorCommand` as contracts see it.
pub struct EditorCommandView {
    pub program: Seq<char>,
    pub options: Seq<Seq<char>>,
    pub path: Seq<char>,
}

impl View for EditorCommand {
    type V = EditorCommandView;

    open spec fn view(&self) -> EditorCommandView {
        EditorCommandView {
            program: self.program@,
            options: self.options.deep_view(),
            path: self.path@,
        }
    }
}

impl EditorCommandView {
    /// The arguments that the program is started with: the options, then
    /// the path.
    pub open spec fn arguments(self) -> Seq<Seq<char>> {
        self.options.push(self.path)
    }

    /// The command line as it is shown to the user: the program, the options
    /// joined by single spaces, and the path, with one space between the
    /// three.
    pub open spec fn shown(self) -> Seq<char> {
        self.program + " "@ + joined(self.options, " "@) + " "@ + self.path
    }
}

/// The words of the editor's command line under `setting`.
pub open spec fn editor_words(setting: Option<Seq<char>>) -> Seq<Seq<char>> {
    match setting {
        Some(line) => if words(line).len() > 0 {
            words(line)
        } else {
            seq![FALLBACK_EDITOR@]
        },
        None => seq![FALLBACK_EDITOR@],
    }
}

/// The invocation that opens `path` under `setting`.
pub open spec fn editor_command_of(setting: Option<Seq<char>>, path: Seq<char>) -> EditorCommandView {
    EditorCommandView {
        program: editor_words(setting)[0],
        options: editor_words(setting).skip(1),
        path,
    }
}

/// A setting that holds words gives the program by its first word, and the
/// program is started with the other words, in their order, and then the
/// path.
pub proof fn law_path_follows_the_options(line: Seq<char>, path: Seq<char>)
    requires
        words(line).len() > 0,
    ensures
        editor_command_of(Some(line), path).program == words(line)[0],
        editor_command_of(Some(line), path).arguments() == words(line).skip(1).push(path),
{
}

/// Without a setting, or with one that holds no word, the program is
/// `FALLBACK_EDITOR`, started with the path alone.
pub proof fn law_fallback_without_words(setting: Option<Seq<char>>, path: Seq<char>)
    requires
        setting matches Some(line) ==> words(line).len() == 0,
    ensures
        editor_command_of(setting, path).program == FALLBACK_EDITOR@,
        editor_command_of(setting, path).arguments() == seq![path],
{
    assert(seq![FALLBACK_EDITOR@].skip(1).push(path) =~= seq![path]);
}

/// Whatever the setting, the path is the last argument.
pub proof fn law_path_is_last_argument(setting: Option<Seq<char>>, path: Seq<char>)
    ensures
        editor_command_of(setting, path).arguments().last() == path,
{
}

/// How the attempt to run the editor ended.
#[derive(Debug)]
pub enum EditorOutcome {
    /// The system did not start the editor; `reason` is its description of
    /// the error.
    LaunchFailure { reason: String },
    /// The editor ran and did not end with code 0; `status` is the system's
    /// description of how it ended.
    NonZeroExit { status: String },
    /// The editor ran and ended with code 0.
    Success,
}

/// An `EditorOutcome` as contracts see it.
pub enum EditorOutcomeView {
    LaunchFailure { reason: Seq<char> },
    NonZeroExit { status: Seq<char> },
    Success,
}

impl View for EditorOutcome {
    type V = EditorOutcomeView;

    open spec fn view(&self) -> EditorOutcomeView {
        match *self {
            EditorOutcome::LaunchFailure { reason } => EditorOutcomeView::LaunchFailure {
                reason: reason@,
            },
            EditorOutcome::NonZeroExit { status } => EditorOutcomeView::NonZeroExit {
                status: status@,
            },
            EditorOutcome::Success => EditorOutcomeView::Success,
        }
    }
}

/// The text for an editor that could not be started.
pub open spec fn editor_failure_text(shown: Seq<char>, reason: Seq<char>) -> Seq<char> {
    "Failed to run editor command: "@ + shown + "\nError: "@ + reason
}

/// The text for an editor that did not end with code 0.
pub open spec fn editor_status_text(status: Seq<char>) -> Seq<char> {
    "Editor exited with status: "@ + status
}

/// What follows from `outcome` of running `command`: an editor that cannot
/// be started ends the tool with code 1; one that ends badly is reported,
/// and the command goes on.
pub open spec fn editor_report_of(command: EditorCommandView, outcome: EditorOutcomeView) -> ReportView {
    match outcome {
        EditorOutcomeView::LaunchFailure { reason } => complaint(
            editor_failure_text(command.shown(), reason),
            Some(1i32),
        ),
        EditorOutcomeView::NonZeroExit { status } => complaint(editor_status_text(status), None),
        EditorOutcomeView::Success => silent(),
    }
}

/// Classifies the end of an editor that ran. `success` tells whether it
/// ended with code 0, and `status` is the system's description.
pub fn classify_editor_exit(success: bool, status: String) -> (outcome: EditorOutcome)
    ensures
        outcome@ == if success {
            EditorOutcomeView::Success
        } else {
            EditorOutcomeView::NonZeroExit { status: status@ }
        },
{
    if success {
        EditorOutcome::Success
    } else {
        EditorOutcome::NonZeroExit { status }
    }
}

/// Puts together the invocation that opens `path`. `setting` is the user's
/// editor command line, if there is one.
pub fn editor_command(setting: Option<&str>, path: &str) -> (command: EditorCommand)
    ensures
        command@ == editor_command_of(
            match setting {
                Some(line) => Some(line@),
                None => None,
            },
            path@,
        ),
{
    let mut found: Vec<String> = match setting {
        Some(line) => split_words(line),
        None => Vec::new(),
    };
    if found.len() == 0 {
        found.push(String::from_str(FALLBACK_EDITOR));
        assert(found.deep_view() =~= seq![FALLBACK_EDITOR@]);
    }
    let ghost all = found.deep_view();
    let program = found.remove(0);
    assert(found.deep_view() =~= all.skip(1));
    EditorCommand { program, options: found, path: String::from_str(path) }
}

impl EditorCommand {
    /// The arguments to start the program with, in their order.
    pub fn arguments(&self) -> (list: Vec<String>)
        ensures
            list.deep_view() == self@.arguments(),
    {
        let mut list: Vec<String> = self.options.clone();
        assert(list.deep_view() =~= self.options.deep_view());
        let ghost before = list.deep_view();
        list.push(self.path.clone());
        assert(list.deep_view() =~= before.push(self.path@));
        list
    }

    /// The command line as it is shown to the user.
    pub fn shown(&self) -> (text: String)
        ensures
            text@ == self@.shown(),
    {
        let options = join(&self.options, " ");
        self.program.clone().concat(" ").concat(options.as_str()).concat(" ").concat(
            self.path.as_str(),
        )
    }
}

/// Maps the outcome of running `command` to what the tool writes and
/// whether it ends.
pub fn editor_report(command: &EditorCommand, outcome: &EditorOutcome) -> (report: Report)
    ensures
        report@ == editor_report_of(command@, outcome@),
{
    match outcome {
        EditorOutcome::LaunchFailure { reason } => {
            let shown = command.shown();
            let text = String::from_str("Failed to run editor command: ").concat(
                shown.as_str(),
            ).concat("\nError: ").concat(reason.as_str());
            Report::complaint(text, Some(1))
        },
        EditorOutcome::NonZeroExit { status } => {
            let text = String::from_str("Editor exited with status: ").concat(status.as_str());
            Report::complaint(text, None)
        },
        EditorOutcome::Success => Report::silent(),
    }
}

} // verus!
