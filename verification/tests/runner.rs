use nmixx::automation::runner::{
    check_cancel, check_export, check_start, check_line, check_reply, final_outcome, rpc_request_valid, validate, AutomationState,
    LogBuffer, RunControl, ScriptSpec, MAX_LINE, MAX_REPLY,
};
use nmixx::stream::TimeSpan;

fn spec(name: &str, source: &str) -> ScriptSpec {
    ScriptSpec {
        name: name.to_owned(),
        source: source.to_owned(),
        program: "python3".to_owned(),
        arguments: Vec::new(),
        working_directory: None,
        timeout_seconds: 60,
    }
}

#[test]
fn scripts_are_checked_before_they_run() {
    assert!(validate(&spec("run.py", "print(1)")).is_ok());
    assert_eq!(validate(&spec("run.py", "")), Err("Script must contain 1..262144 UTF-8 bytes".to_owned()));
    assert_eq!(validate(&spec("dir/run.py", "x")), Err("Script name must be a filename, not a path".to_owned()));
}

#[test]
fn a_run_stops_at_its_deadline_or_when_cancelled() {
    let control = RunControl::new(100, TimeSpan { nanos: 50 }).unwrap();
    assert_eq!(control.deadline, 150);
    assert!(control.check(149, false).is_ok());
    assert_eq!(control.check(149, true), Err("Automation was cancelled".to_owned()));
    assert_eq!(control.check(150, false), Err("Automation deadline exceeded".to_owned()));
    assert_eq!(control.wait_end(100, TimeSpan { nanos: 10 }), Ok(110));
    assert_eq!(control.wait_end(100, TimeSpan { nanos: 500 }), Ok(150));
    assert_eq!(RunControl::new(1, TimeSpan { nanos: 0 }), Err("Run deadline must be positive".to_owned()));
    assert_eq!(RunControl::new(u128::MAX, TimeSpan { nanos: 1 }), Err("Run deadline overflow".to_owned()));
}

#[test]
fn the_end_of_a_run_decides_its_state_and_message() {
    assert_eq!(final_outcome(false, false, None, None, Some(0)), (AutomationState::Completed, None));
    assert_eq!(
        final_outcome(false, false, None, None, Some(3)),
        (AutomationState::Failed, Some("Script exit code: Some(3)".to_owned()))
    );
    assert_eq!(
        final_outcome(false, true, None, None, None),
        (AutomationState::Cancelled, Some("Cancelled; owned-operation cleanup completed".to_owned()))
    );
    assert_eq!(
        final_outcome(true, false, Some("boom".to_owned()), Some("stop".to_owned()), None),
        (AutomationState::Failed, Some("Automation task deadline exceeded; boom; Cleanup failed: stop".to_owned()))
    );
    assert!(AutomationState::Cancelling.active());
    assert!(!AutomationState::Failed.active());
}

#[test]
fn the_log_numbers_lines_and_serves_the_newer_ones() {
    let mut log = LogBuffer::new();
    log.push("stdout".to_owned(), "one".to_owned(), 1);
    log.push("stderr".to_owned(), "two".to_owned(), 2);
    let (lines, first, next) = log.snapshot(0);
    assert_eq!(lines.len(), 2);
    assert_eq!((first, next), (1, 3));
    let (newer, _, _) = log.snapshot(1);
    assert_eq!(newer.len(), 1);
    assert_eq!(newer[0].text, "two");
}

#[test]
fn oversized_lines_and_replies_are_refused() {
    assert!(check_line(MAX_LINE).is_ok());
    assert_eq!(check_line(MAX_LINE + 1), Err("Script output line exceeds 1 MiB".to_owned()));
    assert!(check_reply(MAX_REPLY).is_ok());
    assert_eq!(check_reply(MAX_REPLY + 1), Err("Application response exceeds 4 MiB".to_owned()));
}

#[test]
fn rpc_requests_need_every_field() {
    assert!(rpc_request_valid(true, true, true, true));
    assert!(!rpc_request_valid(false, true, true, true));
    assert!(!rpc_request_valid(true, false, true, true));
    assert!(!rpc_request_valid(true, true, false, true));
    assert!(!rpc_request_valid(true, true, true, false));
}

#[test]
fn logs_export_only_after_the_task_ends() {
    let refused = Err("Finish or cancel the task before exporting its log".to_owned());
    assert_eq!(check_export(0, AutomationState::Completed), refused);
    assert_eq!(check_export(3, AutomationState::Running), refused);
    assert_eq!(check_export(3, AutomationState::Cancelling), refused);
    assert!(check_export(3, AutomationState::Completed).is_ok());
    assert!(check_export(3, AutomationState::Failed).is_ok());
}

#[test]
fn cancel_names_the_current_task() {
    assert!(check_cancel(4, 4).is_ok());
    assert_eq!(check_cancel(5, 4), Err("The Automation task changed".to_owned()));
}

#[test]
fn interpreter_names_of_whitespace_only_are_refused() {
    let mut script = spec("run.py", "print(1)");
    script.program = "\u{3000}\t \u{85}".to_owned();
    assert_eq!(validate(&script), Err("Invalid interpreter or argument list".to_owned()));
    script.program = " python3\u{2009}".to_owned();
    assert!(validate(&script).is_ok());
}

#[test]
fn exit_codes_are_reported_as_debug_text() {
    let message = |code: Option<i32>| final_outcome(false, false, None, None, code).1.unwrap();
    assert_eq!(message(None), "Script exit code: None");
    assert_eq!(message(Some(120)), "Script exit code: Some(120)");
    assert_eq!(message(Some(-15)), "Script exit code: Some(-15)");
    assert_eq!(message(Some(i32::MIN)), "Script exit code: Some(-2147483648)");
    assert_eq!(message(Some(i32::MAX)), "Script exit code: Some(2147483647)");
}

#[test]
fn interpreters_are_trimmed_of_unicode_whitespace() {
    let mut blank = spec("run.py", "print(1)");
    blank.program = " \t\u{3000}\u{2029} ".to_owned();
    assert!(validate(&blank).is_err());
    let mut padded = spec("run.py", "print(1)");
    padded.program = "\u{a0} python3\n".to_owned();
    assert!(validate(&padded).is_ok());
}

#[test]
fn a_new_task_waits_for_the_active_one_and_takes_the_next_id() {
    assert_eq!(check_start(None, 0), Ok(1));
    assert_eq!(check_start(Some(AutomationState::Completed), 1), Ok(2));
    assert_eq!(check_start(Some(AutomationState::Failed), 41), Ok(42));
    for state in [AutomationState::Starting, AutomationState::Running, AutomationState::Cancelling] {
        assert_eq!(check_start(Some(state), 1), Err("An Automation task is already active".to_owned()));
    }
}
