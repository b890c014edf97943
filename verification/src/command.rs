//! The commands of the tool: how the arguments of the command line select
//! one, and what the tool writes for those that need no process.

use vstd::prelude::*;
use vstd::string::*;
use crate::report::{complaint, notice, silent, Report};
use crate::runner::{not_found_message, not_found_text};
use crate::text::{same_text, trim, trimmed};

verus! {

/// The help text.
pub const HELP: &'static str =
    "fastbash — quick script manager\n\nUSAGE:\n    fastbash create         # Create a new script interactively\n    fastbash edit <script>  # Open script for editing\n    fastbash <script> [...] # Run a saved script with optional args\n    fastbash ls             # List saved scripts\n    fastbash rm <script>    # Delete a saved script\n    fastbash help           # Show this help message\n\nNOTES:\n    - Scripts are saved in ~/.fastbash/scripts\n    - Make sure your scripts start with a shebang line (e.g., #!/bin/bash)\n    - Set the EDITOR env variable to control which editor is used\n";

/// What a new script holds before the user edits it.
pub const TEMPLATE: &'static str = "#!/bin/bash\n# description: (no description)\n";

/// What the user asked for.
#[derive(Debug)]
pub enum Command {
    /// Show the help text.
    Help,
    /// List the scripts in the store.
    List,
    /// Create a script; its name is asked for.
    Create,
    /// Open the script `name` in the editor.
    Edit { name: String },
    /// Delete the script `name`.
    Remove { name: String },
    /// Run the script `name` with `args`.
    Run { name: String, args: Vec<String> },
    /// `verb` needs the name of a script, and none was given.
    Incomplete { verb: String },
}

/// A `Command` as contracts see it.
pub enum CommandView {
    Help,
    List,
    Create,
    Edit { name: Seq<char> },
    Remove { name: Seq<char> },
    Run { name: Seq<char>, args: Seq<Seq<char>> },
    Incomplete { verb: Seq<char> },
}

impl View for Command {
    type V = CommandView;

    open spec fn view(&self) -> CommandView {
        match *self {
            Command::Help => CommandView::Help,
            Command::List => CommandView::List,
            Command::Create => CommandView::Create,
            Command::Edit { name } => CommandView::Edit { name: name@ },
            Command::Remove { name } => CommandView::Remove { name: name@ },
            Command::Run { name, args } => CommandView::Run {
                name: name@,
                args: args.deep_view(),
            },
            Command::Incomplete { verb } => CommandView::Incomplete { verb: verb@ },
        }
    }
}

/// The command that the arguments `args` select. The first of them is a
/// verb, or else the name of a script to run with all that follow it.
pub open spec fn command_of(args: Seq<Seq<char>>) -> CommandView {
    if args.len() == 0 {
        CommandView::Help
    } else if args[0] == "ls"@ {
        CommandView::List
    } else if args[0] == "create"@ {
        CommandView::Create
    } else if args[0] == "edit"@ {
        if args.len() < 2 {
            CommandView::Incomplete { verb: args[0] }
        } else {
            CommandView::Edit { name: args[1] }
        }
    } else if args[0] == "rm"@ {
        if args.len() < 2 {
            CommandView::Incomplete { verb: args[0] }
        } else {
            CommandView::Remove { name: args[1] }
        }
    } else if args[0] == "help"@ || args[0] == "--help"@ || args[0] == "-h"@ {
        CommandView::Help
    } else {
        CommandView::Run { name: args[0], args: args.skip(1) }
    }
}

/// Whether `word` is one of the verbs of the tool.
pub open spec fn is_verb(word: Seq<char>) -> bool {
    ||| word == "ls"@
    ||| word == "create"@
    ||| word == "edit"@
    ||| word == "rm"@
    ||| word == "help"@
    ||| word == "--help"@
    ||| word == "-h"@
}

/// A first argument that is no verb names a script, and every argument
/// behind it is passed on to the script, unchanged and in its order.
pub proof fn law_arguments_are_passed_on(name: Seq<char>, args: Seq<Seq<char>>)
    requires
        !is_verb(name),
    ensures
        command_of(seq![name] + args) == (CommandView::Run { name, args }),
{
    assert((seq![name] + args).skip(1) =~= args);
}

/// Only a first argument that is no verb runs a script.
pub proof fn law_verbs_run_no_script(args: Seq<Seq<char>>)
    requires
        args.len() > 0,
    ensures
        command_of(args) is Run <==> !is_verb(args[0]),
{
}

/// The line that tells how `verb` is used.
pub open spec fn usage_text(verb: Seq<char>) -> Seq<char> {
    "Usage: fastbash "@ + verb + " <script>"@
}

/// The text that tells that the script `name` was deleted.
pub open spec fn removed_text(name: Seq<char>) -> Seq<char> {
    "Removed script '"@ + name + "'"@
}

/// The text that tells that the script `name` was created at the path
/// that `shown_path` shows.
pub open spec fn created_text(name: Seq<char>, shown_path: Seq<char>) -> Seq<char> {
    "Script '"@ + name + "' created at "@ + shown_path
}

/// Selects the command for the arguments of the command line, the name of
/// the program left out.
pub fn parse_command(args: &Vec<String>) -> (command: Command)
    ensures
        command@ == command_of(args.deep_view()),
{
    if args.len() == 0 {
        return Command::Help;
    }
    let first: &str = args[0].as_str();
    assert(first@ == args.deep_view()[0]);
    if same_text(first, "ls") {
        Command::List
    } else if same_text(first, "create") {
        Command::Create
    } else if same_text(first, "edit") {
        if args.len() < 2 {
            Command::Incomplete { verb: args[0].clone() }
        } else {
            assert(args[1]@ == args.deep_view()[1]);
            Command::Edit { name: args[1].clone() }
        }
    } else if same_text(first, "rm") {
        if args.len() < 2 {
            Command::Incomplete { verb: args[0].clone() }
        } else {
            assert(args[1]@ == args.deep_view()[1]);
            Command::Remove { name: args[1].clone() }
        }
    } else if same_text(first, "help") || same_text(first, "--help") || same_text(first, "-h") {
        Command::Help
    } else {
        let mut rest: Vec<String> = Vec::new();
        let mut at: usize = 1;
        while at < args.len()
            invariant
                1 <= at <= args.len(),
                rest.deep_view() == args.deep_view().subrange(1, at as int),
            decreases args.len() - at,
        {
            let ghost before = rest.deep_view();
            rest.push(args[at].clone());
            assert(rest.deep_view() =~= before.push(args[at as int]@));
            assert(rest.deep_view() =~= args.deep_view().subrange(1, at + 1));
            at += 1;
        }
        assert(rest.deep_view() =~= args.deep_view().skip(1));
        Command::Run { name: args[0].clone(), args: rest }
    }
}

/// The report for a command that lacks the name of a script: the usage
/// line, and the tool ends with code 1.
pub fn incomplete_report(verb: &str) -> (report: Report)
    ensures
        report@ == complaint(usage_text(verb@), Some(1i32)),
{
    Report::complaint(String::from_str("Usage: fastbash ").concat(verb).concat(" <script>"), Some(1))
}

/// The report that ends the removal of the script `name`. `existed` tells
/// whether the script was there, and so was deleted. A script that was not
/// there is reported, and the tool still ends with code 0.
pub fn removal_report(name: &str, existed: bool) -> (report: Report)
    ensures
        report@ == if existed {
            notice(removed_text(name@), Some(0i32))
        } else {
            complaint(not_found_text(name@), Some(0i32))
        },
{
    if existed {
        Report::notice(String::from_str("Removed script '").concat(name).concat("'"), Some(0))
    } else {
        Report::complaint(not_found_message(name), Some(0))
    }
}

/// The report that precedes the editing of the script `name`. `present`
/// tells whether the script exists. Where it does, nothing is written and the
/// command goes on to the editor; where it does not, that is reported and
/// the tool ends with code 0.
pub fn edit_report(name: &str, present: bool) -> (report: Report)
    ensures
        report@ == if present {
            silent()
        } else {
            complaint(not_found_text(name@), Some(0i32))
        },
{
    if present {
        Report::silent()
    } else {
        Report::complaint(not_found_message(name), Some(0))
    }
}

/// The name of a new script, from the line that the user typed: the line
/// without the whitespace around it.
pub fn script_name<'a>(typed: &'a str) -> (name: &'a str)
    ensures
        name@ == trimmed(typed@),
{
    trim(typed)
}

/// Whether a new script is given the content `TEMPLATE`: only one that is
/// not `present` in the store yet is.
pub fn needs_template(present: bool) -> (needed: bool)
    ensures
        needed == !present,
{
    !present
}

/// The report that ends the creation of the script `name`. `shown_path`
/// is the path of the script as it is shown to the user.
pub fn creation_report(name: &str, shown_path: &str) -> (report: Report)
    ensures
        report@ == notice(created_text(name@, shown_path@), Some(0i32)),
{
    Report::notice(
        String::from_str("Script '").concat(name).concat("' created at ").concat(shown_path),
        Some(0),
    )
}

} // verus!
