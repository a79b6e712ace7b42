use gemini_core::errors::ErrorKind;
use gemini_core::resolve::{find_gemini_binary, resolve_stored_path};
use gemini_core::install::GeminiInstallation;
use gemini_core::session::{
    accumulate_output, build_gemini_args, execute_outcome, stream_step, GeminiProcessState,
    SessionPhase,
};

fn rec(path: &str, version: Option<&str>, source: &str) -> GeminiInstallation {
    GeminiInstallation {
        path: path.to_string(),
        version: version.map(|v| v.to_string()),
        source: source.to_string(),
    }
}

#[test]
fn stop_twice_starting_idle_is_a_quiet_no_op() {
    let mut session = GeminiProcessState::new();
    assert_eq!(session.phase, SessionPhase::Idle);
    let had = session.stop();
    assert!(!had);
    assert_eq!(session.phase, SessionPhase::Idle);
    let had = session.stop();
    assert!(!had);
    assert_eq!(session.phase, SessionPhase::Idle);
}

#[test]
fn stop_clears_a_running_session_and_stays_idempotent() {
    let mut session = GeminiProcessState::new();
    session.try_start().unwrap();
    assert_eq!(session.phase, SessionPhase::Running);
    assert!(session.stop());
    assert_eq!(session.phase, SessionPhase::Idle);
    assert!(!session.stop());
    assert_eq!(session.phase, SessionPhase::Idle);
}

#[test]
fn start_while_running_fails_then_succeeds_after_natural_exit() {
    let mut session = GeminiProcessState::new();
    assert!(session.try_start().is_ok());
    let second = session.try_start();
    let err = second.unwrap_err();
    assert_eq!(err.kind, ErrorKind::AlreadyRunning);
    assert_eq!(session.phase, SessionPhase::Running);
    // The running process exits naturally: end of stream takes the handle.
    let had = session.finish();
    assert!(had);
    assert_eq!(session.phase, SessionPhase::Idle);
    assert!(session.try_start().is_ok());
    assert_eq!(session.phase, SessionPhase::Running);
}

#[test]
fn spawn_failure_releases_the_claimed_slot() {
    let mut session = GeminiProcessState::new();
    session.try_start().unwrap();
    session.spawn_failed();
    assert_eq!(session.phase, SessionPhase::Idle);
    assert!(session.try_start().is_ok());
}

#[test]
fn three_lines_stream_three_events_in_order_and_accumulate() {
    let mut buffer = String::new();
    let mut events: Vec<String> = Vec::new();
    for line in ["first", "second", "third"] {
        let event = stream_step(&mut buffer, line.to_string());
        events.push(event);
    }
    assert_eq!(events, vec!["first", "second", "third"]);
    assert_eq!(buffer, "first\nsecond\nthird\n");
    let outcome = execute_outcome(buffer, true, String::from("exit status: 0"));
    assert_eq!(outcome.unwrap(), "first\nsecond\nthird\n");
}

#[test]
fn accumulate_output_joins_each_line_with_a_trailing_newline() {
    let lines = vec!["a".to_string(), "".to_string(), "c".to_string()];
    assert_eq!(accumulate_output(&lines), "a\n\nc\n");
    let none: Vec<String> = Vec::new();
    assert_eq!(accumulate_output(&none), "");
}

#[test]
fn failing_exit_surfaces_status_and_partial_output() {
    let failure = execute_outcome("partial\n".to_string(), false, "exit status: 1".to_string());
    let err = failure.unwrap_err();
    assert_eq!(err.error.kind, ErrorKind::ExecutionFailed);
    assert_eq!(err.error.detail, "Gemini command failed with status: exit status: 1");
    assert_eq!(err.partial_output, "partial\n");
}

#[test]
fn arguments_carry_the_model_flag_only_when_chosen() {
    let with_model = build_gemini_args("hello".to_string(), Some("gemini-2.0-flash-exp".to_string()));
    assert_eq!(with_model, vec!["--model", "gemini-2.0-flash-exp", "hello"]);
    let without = build_gemini_args("hello".to_string(), None);
    assert_eq!(without, vec!["hello"]);
}

#[test]
fn stored_path_fast_path_applies_only_to_an_existing_file() {
    assert_eq!(
        resolve_stored_path(Some("/kept/gemini".to_string()), true),
        Some("/kept/gemini".to_string())
    );
    assert_eq!(resolve_stored_path(Some("/stale/gemini".to_string()), false), None);
    assert_eq!(resolve_stored_path(None, false), None);
}

#[test]
fn stale_persisted_path_falls_through_to_discovery() {
    let discovered = vec![rec("/fresh/gemini", Some("1.1.0"), "system")];
    let resolved = find_gemini_binary(Some("/stale/gemini".to_string()), false, &discovered);
    assert_eq!(resolved.unwrap(), "/fresh/gemini");
}

#[test]
fn valid_persisted_path_skips_discovery_entirely() {
    let discovered = vec![rec("/other/gemini", Some("9.9.9"), "npm-global")];
    let resolved = find_gemini_binary(Some("/kept/gemini".to_string()), true, &discovered);
    assert_eq!(resolved.unwrap(), "/kept/gemini");
}

#[test]
fn empty_discovery_is_not_found_with_install_guidance() {
    let resolved = find_gemini_binary(None, false, &Vec::new());
    let err = resolved.unwrap_err();
    assert_eq!(err.kind, ErrorKind::NotFound);
    assert_eq!(
        err.detail,
        "No Gemini CLI installations found. Please install with: npm install -g @google/gemini-cli"
    );
}

#[test]
fn resolution_uses_the_selector_on_discovered_records() {
    let discovered = vec![
        rec("/a/gemini", None, "system"),
        rec("/b/gemini", Some("1.2.0"), "npm-global"),
    ];
    let resolved = find_gemini_binary(None, false, &discovered);
    assert_eq!(resolved.unwrap(), "/b/gemini");
}
