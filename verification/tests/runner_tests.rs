use fastbash::report::Stream;
use fastbash::runner::{classify_exit, classify_failure, not_found_message, run_report, Outcome, EXEC_FORMAT_ERROR};

#[test]
fn missing_script_ends_with_one() {
    let report = run_report("backup", &Outcome::NotFound);
    assert_eq!(report.message, Some("Script 'backup' not found".to_string()));
    assert_eq!(report.stream, Stream::Error);
    assert_eq!(report.exit, Some(1));
    assert_eq!(not_found_message("backup"), "Script 'backup' not found");
}

#[test]
fn exec_format_error_gives_the_shebang_hint() {
    assert_eq!(EXEC_FORMAT_ERROR, 8);
    let outcome = classify_failure(Some(8), "Exec format error (os error 8)".to_string());
    assert!(matches!(outcome, Outcome::LaunchFailure { exec_format: true, .. }));
    let report = run_report("plain", &outcome);
    assert_eq!(
        report.message,
        Some("Failed to execute 'plain': Exec format error.\nHint: Make sure the script starts with a valid shebang line (e.g., #!/bin/bash)".to_string())
    );
    assert_eq!(report.stream, Stream::Error);
    assert_eq!(report.exit, Some(1));
}

#[test]
fn other_launch_error_gives_the_raw_error() {
    let outcome = classify_failure(Some(13), "Permission denied (os error 13)".to_string());
    assert!(matches!(outcome, Outcome::LaunchFailure { exec_format: false, .. }));
    let report = run_report("locked", &outcome);
    assert_eq!(report.message, Some("Failed to run script 'locked': Permission denied (os error 13)".to_string()));
    assert_eq!(report.stream, Stream::Error);
    assert_eq!(report.exit, Some(1));
}

#[test]
fn launch_error_without_code_gives_the_raw_error() {
    let outcome = classify_failure(None, "broken".to_string());
    assert!(matches!(outcome, Outcome::LaunchFailure { exec_format: false, .. }));
    let report = run_report("odd", &outcome);
    assert_eq!(report.message, Some("Failed to run script 'odd': broken".to_string()));
    assert_eq!(report.exit, Some(1));
}

#[test]
fn script_that_ends_well_is_silent_and_ends_with_zero() {
    let outcome = classify_exit(Some(0), "exit status: 0".to_string());
    assert!(matches!(outcome, Outcome::Success));
    let report = run_report("fine", &outcome);
    assert_eq!(report.message, None);
    assert_eq!(report.exit, Some(0));
}

#[test]
fn exit_code_of_the_script_is_passed_on() {
    let outcome = classify_exit(Some(3), "exit status: 3".to_string());
    assert!(matches!(outcome, Outcome::NonZeroExit { code: Some(3), .. }));
    let report = run_report("failing", &outcome);
    assert_eq!(report.message, Some("Script exited with non-zero status: exit status: 3".to_string()));
    assert_eq!(report.stream, Stream::Error);
    assert_eq!(report.exit, Some(3));
    assert_eq!(run_report("failing", &classify_exit(Some(255), "exit status: 255".to_string())).exit, Some(255));
    assert_eq!(run_report("failing", &classify_exit(Some(-1), "exit status: -1".to_string())).exit, Some(-1));
}

#[test]
fn script_ended_by_a_signal_ends_the_tool_with_one() {
    let outcome = classify_exit(None, "signal: 9 (SIGKILL)".to_string());
    assert!(matches!(outcome, Outcome::NonZeroExit { code: None, .. }));
    let report = run_report("killed", &outcome);
    assert_eq!(report.message, Some("Script exited with non-zero status: signal: 9 (SIGKILL)".to_string()));
    assert_eq!(report.exit, Some(1));
}
