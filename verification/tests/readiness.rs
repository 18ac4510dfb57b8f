use readiness::command::plan_start;
use readiness::errors::ProcessError;
use readiness::matching::contains_substring;
use readiness::matching::find_matching_line;
use readiness::poll::next_poll_step;
use readiness::poll::PollStep;
use readiness::poll::POLL_INTERVAL_SECS;
use readiness::poll::READINESS_TIMEOUT_SECS;

fn s(x: &str) -> String {
    x.to_string()
}

#[test]
fn finds_pattern_inside_line() {
    assert!(contains_substring("listening on port 9000", "listening on port"));
    assert!(contains_substring("listening on port 9000", "port 9000"));
    assert!(contains_substring("listening on port 9000", "on"));
}

#[test]
fn matching_is_case_sensitive() {
    assert!(!contains_substring("Ready", "ready"));
    assert!(contains_substring("Ready", "Ready"));
}

#[test]
fn pattern_longer_than_text_never_matches() {
    assert!(!contains_substring("up", "up and running"));
}

#[test]
fn empty_pattern_matches_everywhere() {
    assert!(contains_substring("anything", ""));
    assert!(contains_substring("", ""));
}

#[test]
fn absent_pattern_does_not_match() {
    assert!(!contains_substring("hello world", "port"));
    assert!(!contains_substring("", "port"));
}

#[test]
fn whole_line_matches_itself() {
    assert!(contains_substring("ready", "ready"));
}

#[test]
fn first_matching_line_wins() {
    let lines = vec![s("starting"), s("almost ready"), s("fully ready")];
    assert_eq!(find_matching_line(&lines, "ready"), Some(1));
}

#[test]
fn no_matching_line_is_reported() {
    let lines = vec![s("starting"), s("warming up")];
    assert_eq!(find_matching_line(&lines, "ready"), None);
}

#[test]
fn match_in_fiftieth_line_is_found() {
    let mut lines: Vec<String> = Vec::new();
    for i in 0usize..49 {
        lines.push(format!("log record number {}", i));
    }
    lines.push(s("server is ready now"));
    assert_eq!(find_matching_line(&lines, "ready"), Some(49));
}

#[test]
fn empty_command_is_invalid() {
    let command: Vec<String> = Vec::new();
    let r = plan_start("/tmp/t", &command);
    assert!(matches!(r, Err(ProcessError::InvalidCommand)));
}

#[test]
fn single_element_command_plans_start() {
    let command = vec![s("echo-ready-server")];
    let plan = plan_start("/tmp/t", &command).unwrap();
    assert_eq!(plan.program, "echo-ready-server");
    assert!(plan.args.is_empty());
    assert_eq!(plan.log_path, "/tmp/t/echo-ready-server.log");
    assert_eq!(plan.description, "echo-ready-server");
}

#[test]
fn command_with_arguments_plans_start() {
    let command = vec![s("srv"), s("-p"), s("9000")];
    let plan = plan_start("/var/log", &command).unwrap();
    assert_eq!(plan.program, "srv");
    assert_eq!(plan.args, vec![s("-p"), s("9000")]);
    assert_eq!(plan.log_path, "/var/log/srv.log");
    assert_eq!(plan.description, "srv-p 9000");
}

#[test]
fn poll_reports_ready_on_match() {
    let read = Some(vec![s("listening on port 9000")]);
    assert_eq!(next_poll_step(1, &read, "listening on port"), PollStep::Ready);
}

#[test]
fn poll_sleeps_without_match() {
    let read = Some(vec![s("starting up")]);
    assert_eq!(next_poll_step(1, &read, "listening on port"), PollStep::Sleep);
}

#[test]
fn poll_times_out_exactly_at_deadline() {
    let read = Some(vec![s("starting up")]);
    assert_eq!(next_poll_step(29, &read, "ready"), PollStep::Sleep);
    assert_eq!(next_poll_step(30, &read, "ready"), PollStep::TimedOut);
    assert_eq!(next_poll_step(31, &read, "ready"), PollStep::TimedOut);
}

#[test]
fn deadline_takes_precedence_over_match_and_read_failure() {
    let read = Some(vec![s("ready")]);
    assert_eq!(next_poll_step(30, &read, "ready"), PollStep::TimedOut);
    let failed: Option<Vec<String>> = None;
    assert_eq!(next_poll_step(35, &failed, "ready"), PollStep::TimedOut);
}

#[test]
fn read_failure_before_deadline_aborts() {
    let failed: Option<Vec<String>> = None;
    assert_eq!(next_poll_step(5, &failed, "ready"), PollStep::ReadFailed);
}

#[test]
fn growing_log_is_rescanned_from_the_start() {
    let mut lines: Vec<String> = Vec::new();
    for i in 0usize..10 {
        lines.push(format!("log record number {}", i));
    }
    let early = Some(lines.clone());
    assert_eq!(next_poll_step(2, &early, "ready"), PollStep::Sleep);
    for i in 10usize..49 {
        lines.push(format!("log record number {}", i));
    }
    lines.push(s("server is ready now"));
    let late = Some(lines);
    assert_eq!(next_poll_step(4, &late, "ready"), PollStep::Ready);
}

#[test]
fn timing_constants_are_fixed() {
    assert_eq!(READINESS_TIMEOUT_SECS, 30);
    assert_eq!(POLL_INTERVAL_SECS, 2);
}

#[test]
fn error_messages_carry_context() {
    assert_eq!(
        ProcessError::InvalidCommand.message(),
        "no valid command provided"
    );
    assert_eq!(
        ProcessError::SpawnError(s("No such file or directory")).message(),
        "failed to spawn process: No such file or directory"
    );
    assert_eq!(
        ProcessError::IoError(s("Permission denied")).message(),
        "failed to read log file: Permission denied"
    );
    assert_eq!(
        ProcessError::ReadinessTimeout(s("listening on port")).message(),
        "timed out waiting for readiness pattern: listening on port"
    );
    assert_eq!(
        ProcessError::SignalError(s("No such process")).message(),
        "failed to kill process: No such process"
    );
}

#[test]
fn scenario_echo_ready_server() {
    let command = vec![s("echo-ready-server")];
    let plan = plan_start("/tmp/t", &command).unwrap();
    assert_eq!(plan.log_path, "/tmp/t/echo-ready-server.log");

    let read = Some(vec![s("listening on port 9000")]);
    assert_eq!(next_poll_step(2, &read, "listening on port"), PollStep::Ready);

    assert_eq!(next_poll_step(2, &read, "nonexistent-pattern"), PollStep::Sleep);
    assert_eq!(next_poll_step(28, &read, "nonexistent-pattern"), PollStep::Sleep);
    assert_eq!(
        next_poll_step(30, &read, "nonexistent-pattern"),
        PollStep::TimedOut
    );
}
