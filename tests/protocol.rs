use rust_tk::protocol::{Action, Session, Stage};
use rust_tk::InterpreterError;

fn done(a: Action) -> Result<Option<String>, InterpreterError> {
    match a {
        Action::Done(r) => r,
        other => panic!("expected the exchange to end, got {:?}", other),
    }
}

#[test]
fn command_queues_text_then_sentinel() {
    let mut s = Session::new();
    let lines = s.begin_command("wm title . hello".to_string()).unwrap();
    assert_eq!(lines, vec!["wm title . hello".to_string(), "puts stderr \"\\n\"".to_string()]);
    assert_eq!(s.stage, Stage::AwaitingDiagnostic);
}

#[test]
fn successful_command_reads_both_sentinel_lines() {
    let mut s = Session::new();
    s.begin_command("set x 1".to_string()).unwrap();
    assert!(matches!(s.on_line("\n"), Action::ReadDiagnostic));
    assert_eq!(done(s.on_line("\n")), Ok(None));
    assert_eq!(s.stage, Stage::Idle);
    assert!(s.alive);
}

#[test]
fn repeated_successes_do_not_lag() {
    let mut s = Session::new();
    for _ in 0..5 {
        s.begin_command("set x 1".to_string()).unwrap();
        assert!(matches!(s.on_line("\n"), Action::ReadDiagnostic));
        assert_eq!(done(s.on_line("\n")), Ok(None));
        assert_eq!(s.stage, Stage::Idle);
    }
}

#[test]
fn malformed_command_is_reported_and_session_stays_usable() {
    let mut s = Session::new();
    s.begin_command("no_such_command".to_string()).unwrap();
    assert!(matches!(
        s.on_line("invalid command name \"no_such_command\"\n"),
        Action::ReadDiagnostic
    ));
    assert!(matches!(s.on_line("\n"), Action::ReadDiagnostic));
    assert_eq!(done(s.on_line("\n")), Err(InterpreterError::MalformedCommand));
    assert!(s.alive);
    assert_eq!(s.stage, Stage::Idle);
    assert!(!s.failed);
    // The next command reads only its own lines: the sentinel's were consumed.
    s.begin_command("set x 1".to_string()).unwrap();
    assert!(matches!(s.on_line("\n"), Action::ReadDiagnostic));
    assert_eq!(done(s.on_line("\n")), Ok(None));
}

#[test]
fn errors_are_not_carried_to_the_next_command() {
    let mut s = Session::new();
    s.begin_command("bad one".to_string()).unwrap();
    s.on_line("invalid command name \"bad\"\n");
    s.on_line("\n");
    assert_eq!(done(s.on_line("\n")), Err(InterpreterError::MalformedCommand));
    s.begin_command("bad two".to_string()).unwrap();
    s.on_line("invalid command name \"bad\"\n");
    s.on_line("\n");
    assert_eq!(done(s.on_line("\n")), Err(InterpreterError::MalformedCommand));
    s.begin_command("set x 1".to_string()).unwrap();
    s.on_line("\n");
    assert_eq!(done(s.on_line("\n")), Ok(None));
}

#[test]
fn end_of_stream_is_a_failure() {
    let mut s = Session::new();
    s.begin_command("set x 1".to_string()).unwrap();
    assert_eq!(done(s.on_line("")), Err(InterpreterError::FailedCommandResult));
    assert_eq!(s.stage, Stage::Idle);
    s.begin_command("set x 1".to_string()).unwrap();
    s.on_line("\n");
    assert_eq!(done(s.on_line("")), Err(InterpreterError::FailedCommandResult));
    s.begin_query("expr 1".to_string()).unwrap();
    s.on_line("\n");
    s.on_line("\n");
    assert_eq!(done(s.on_line("1")), Err(InterpreterError::FailedCommandResult));
    assert_eq!(s.stage, Stage::Idle);
}

#[test]
fn error_line_after_the_first_blank_marks_failure() {
    let mut s = Session::new();
    s.begin_command("set x 1".to_string()).unwrap();
    s.on_line("\n");
    assert!(matches!(s.on_line("stray error\n"), Action::ReadDiagnostic));
    assert_eq!(done(s.on_line("\n")), Err(InterpreterError::MalformedCommand));
}

#[test]
fn whitespace_only_diagnostic_line_is_success() {
    let mut s = Session::new();
    s.begin_command("set x 1".to_string()).unwrap();
    assert!(matches!(s.on_line(" \t\r\n"), Action::ReadDiagnostic));
}

#[test]
fn query_one_plus_one_returns_two() {
    let mut s = Session::new();
    let lines = s.begin_query("expr {1+1}".to_string()).unwrap();
    assert_eq!(lines[0], "puts [expr {1+1}]; flush stdout");
    assert_eq!(lines[1], "puts stderr \"\\n\"");
    assert!(matches!(s.on_line("\n"), Action::ReadDiagnostic));
    assert!(matches!(s.on_line("\n"), Action::ReadOutput));
    assert_eq!(done(s.on_line("2\n")), Ok(Some("2".to_string())));
    assert_eq!(s.stage, Stage::Idle);
}

#[test]
fn response_loses_its_trailing_newline() {
    let mut s = Session::new();
    s.begin_query("set greeting".to_string()).unwrap();
    s.on_line("\n");
    s.on_line("\n");
    let r = done(s.on_line("hello world \r\n")).unwrap().unwrap();
    assert_eq!(r, "hello world");
    assert!(!r.ends_with('\n'));
}

#[test]
fn malformed_query_is_reported() {
    let mut s = Session::new();
    s.begin_query("expr {1+}".to_string()).unwrap();
    assert!(matches!(s.on_line("missing operand at _@_\n"), Action::ReadDiagnostic));
    assert!(matches!(s.on_line("\n"), Action::ReadDiagnostic));
    assert_eq!(done(s.on_line("\n")), Err(InterpreterError::MalformedCommand));
    assert_eq!(s.stage, Stage::Idle);
}

#[test]
fn teardown_refuses_every_operation() {
    let mut s = Session::new();
    s.teardown();
    assert!(!s.alive);
    assert_eq!(s.begin_command("set x 1".to_string()), Err(InterpreterError::DeadInterpreter));
    assert_eq!(s.begin_query("expr 1".to_string()), Err(InterpreterError::DeadInterpreter));
    assert_eq!(s.stage, Stage::Idle);
}

#[test]
fn failures_end_the_exchange() {
    let mut s = Session::new();
    s.begin_command("set x 1".to_string()).unwrap();
    assert_eq!(done(s.on_send_failed()), Err(InterpreterError::FailedCommand));
    assert_eq!(s.stage, Stage::Idle);
    s.begin_command("set x 1".to_string()).unwrap();
    assert_eq!(done(s.on_read_failed()), Err(InterpreterError::FailedCommandResult));
    assert_eq!(s.stage, Stage::Idle);
    assert!(s.alive);
}

#[test]
fn error_messages() {
    assert_eq!(InterpreterError::DeadInterpreter.message(), "Tried to interact with a dead interpreter.");
    assert_eq!(InterpreterError::MalformedCommand.message(), "Malformed command.");
    assert_eq!(InterpreterError::FailedCommand.message(), "Command failed to execute.");
    assert_eq!(InterpreterError::FailedCommandResult.message(), "Failed to fetch result of command.");
}
