use fastbash::command::{
    creation_report, edit_report, incomplete_report, needs_template, parse_command, removal_report, script_name,
    Command, HELP,
};
use fastbash::report::{Report, Stream};
use fastbash::runner::{classify_exit, run_report};

fn arguments(words: &[&str]) -> Vec<String> {
    words.iter().map(|word| word.to_string()).collect()
}

#[test]
fn no_argument_asks_for_help() {
    assert!(matches!(parse_command(&arguments(&[])), Command::Help));
}

#[test]
fn help_has_three_spellings() {
    assert!(matches!(parse_command(&arguments(&["help"])), Command::Help));
    assert!(matches!(parse_command(&arguments(&["--help"])), Command::Help));
    assert!(matches!(parse_command(&arguments(&["-h"])), Command::Help));
    assert!(matches!(parse_command(&arguments(&["help", "more"])), Command::Help));
}

#[test]
fn ls_lists() {
    assert!(matches!(parse_command(&arguments(&["ls"])), Command::List));
    assert!(matches!(parse_command(&arguments(&["ls", "-l"])), Command::List));
}

#[test]
fn create_creates() {
    assert!(matches!(parse_command(&arguments(&["create"])), Command::Create));
}

#[test]
fn edit_takes_the_name_of_a_script() {
    match parse_command(&arguments(&["edit", "backup", "more"])) {
        Command::Edit { name } => assert_eq!(name, "backup"),
        other => panic!("{:?}", other),
    }
}

#[test]
fn edit_without_name_is_incomplete() {
    match parse_command(&arguments(&["edit"])) {
        Command::Incomplete { verb } => assert_eq!(verb, "edit"),
        other => panic!("{:?}", other),
    }
}

#[test]
fn rm_takes_the_name_of_a_script() {
    match parse_command(&arguments(&["rm", "backup"])) {
        Command::Remove { name } => assert_eq!(name, "backup"),
        other => panic!("{:?}", other),
    }
}

#[test]
fn rm_without_name_is_incomplete() {
    match parse_command(&arguments(&["rm"])) {
        Command::Incomplete { verb } => assert_eq!(verb, "rm"),
        other => panic!("{:?}", other),
    }
}

#[test]
fn any_other_word_runs_a_script_with_what_follows() {
    match parse_command(&arguments(&["backup", "a", "b"])) {
        Command::Run { name, args } => {
            assert_eq!(name, "backup");
            assert_eq!(args, arguments(&["a", "b"]));
        },
        other => panic!("{:?}", other),
    }
}

#[test]
fn arguments_of_a_script_are_passed_on_as_they_are() {
    match parse_command(&arguments(&["deploy", "ls", "--help", "", " spaced ", "rm"])) {
        Command::Run { name, args } => {
            assert_eq!(name, "deploy");
            assert_eq!(args, arguments(&["ls", "--help", "", " spaced ", "rm"]));
        },
        other => panic!("{:?}", other),
    }
}

#[test]
fn script_without_arguments_runs_with_none() {
    match parse_command(&arguments(&["backup"])) {
        Command::Run { name, args } => {
            assert_eq!(name, "backup");
            assert!(args.is_empty());
        },
        other => panic!("{:?}", other),
    }
}

#[test]
fn verbs_are_matched_exactly() {
    assert!(matches!(parse_command(&arguments(&["LS"])), Command::Run { .. }));
    assert!(matches!(parse_command(&arguments(&["ls "])), Command::Run { .. }));
    assert!(matches!(parse_command(&arguments(&[""])), Command::Run { .. }));
}

#[test]
fn running_with_two_arguments_ends_with_the_code_of_the_script() {
    match parse_command(&arguments(&["job", "a", "b"])) {
        Command::Run { args, .. } => assert_eq!(args, vec!["a".to_string(), "b".to_string()]),
        other => panic!("{:?}", other),
    }
    assert_eq!(run_report("job", &classify_exit(Some(7), "exit status: 7".to_string())).exit, Some(7));
    assert_eq!(run_report("job", &classify_exit(Some(0), "exit status: 0".to_string())).exit, Some(0));
}

#[test]
fn incomplete_command_gets_the_usage_line_and_ends_with_one() {
    let report = incomplete_report("edit");
    assert_eq!(report.message, Some("Usage: fastbash edit <script>".to_string()));
    assert_eq!(report.stream, Stream::Error);
    assert_eq!(report.exit, Some(1));
    assert_eq!(incomplete_report("rm").message, Some("Usage: fastbash rm <script>".to_string()));
}

#[test]
fn removing_a_script_is_confirmed() {
    let report = removal_report("backup", true);
    assert_eq!(report.message, Some("Removed script 'backup'".to_string()));
    assert_eq!(report.stream, Stream::Output);
    assert_eq!(report.exit, Some(0));
}

#[test]
fn removing_a_missing_script_is_reported_and_ends_with_zero() {
    let report = removal_report("ghost", false);
    assert_eq!(report.message, Some("Script 'ghost' not found".to_string()));
    assert_eq!(report.stream, Stream::Error);
    assert_eq!(report.exit, Some(0));
}

#[test]
fn editing_a_missing_script_is_reported_and_ends_with_zero() {
    let report = edit_report("ghost", false);
    assert_eq!(report.message, Some("Script 'ghost' not found".to_string()));
    assert_eq!(report.stream, Stream::Error);
    assert_eq!(report.exit, Some(0));
}

#[test]
fn editing_a_script_that_exists_goes_on() {
    let report = edit_report("backup", true);
    assert_eq!(report.message, None);
    assert_eq!(report.exit, None);
}

#[test]
fn name_of_a_new_script_is_the_typed_line_trimmed() {
    assert_eq!(script_name("backup\n"), "backup");
    assert_eq!(script_name("  my script \r\n"), "my script");
    assert_eq!(script_name("\n"), "");
}

#[test]
fn only_a_new_script_gets_the_template() {
    assert!(needs_template(false));
    assert!(!needs_template(true));
}

#[test]
fn creation_is_confirmed() {
    let report = creation_report("backup", "\"/home/me/.fastbash/scripts/backup\"");
    assert_eq!(
        report.message,
        Some("Script 'backup' created at \"/home/me/.fastbash/scripts/backup\"".to_string())
    );
    assert_eq!(report.stream, Stream::Output);
    assert_eq!(report.exit, Some(0));
}

#[test]
fn help_names_every_command() {
    assert!(HELP.starts_with("fastbash \u{2014} quick script manager\n\nUSAGE:\n"));
    for verb in ["create", "edit <script>", "ls", "rm <script>", "help"] {
        assert!(HELP.contains(&format!("fastbash {}", verb)), "{}", verb);
    }
    assert!(HELP.ends_with("which editor is used\n"));
}

#[test]
fn reports_are_built_as_named() {
    let silent = Report::silent();
    assert_eq!(silent.message, None);
    assert_eq!(silent.exit, None);
    let complaint = Report::complaint("bad".to_string(), Some(2));
    assert_eq!(complaint.message, Some("bad".to_string()));
    assert_eq!(complaint.stream, Stream::Error);
    assert_eq!(complaint.exit, Some(2));
    let notice = Report::notice("good".to_string(), None);
    assert_eq!(notice.message, Some("good".to_string()));
    assert_eq!(notice.stream, Stream::Output);
    assert_eq!(notice.exit, None);
}
