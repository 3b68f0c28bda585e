use utc_timestamp::startup::{
    debug_hook_steps, diagnostic, exit_code, invoke, lookup_command, main_window_label,
    run_command, startup_outcome, Command, HookStep, StartupFault, FAULT_EXIT_CODE,
};
use utc_timestamp::text::parse_rfc3339_millis;

#[test]
fn debug_hook_opens_then_closes_the_devtools() {
    assert_eq!(
        debug_hook_steps(true, true),
        Ok(vec![HookStep::OpenDevtools, HookStep::CloseDevtools])
    );
}

#[test]
fn release_build_has_no_hook_steps() {
    assert_eq!(debug_hook_steps(false, true), Ok(vec![]));
    assert_eq!(debug_hook_steps(false, false), Ok(vec![]));
}

#[test]
fn missing_main_window_is_a_fault_in_a_debug_build() {
    assert_eq!(debug_hook_steps(true, false), Err(StartupFault::MainWindowMissing));
    let outcome = startup_outcome(true, false, true);
    assert_eq!(outcome, Err(StartupFault::MainWindowMissing));
    assert_ne!(exit_code(outcome), 0);
    assert_eq!(exit_code(outcome), 101);
}

#[test]
fn event_loop_failure_is_a_fault() {
    assert_eq!(startup_outcome(false, false, false), Err(StartupFault::EventLoopFailed));
    assert_eq!(startup_outcome(true, true, false), Err(StartupFault::EventLoopFailed));
    assert_eq!(startup_outcome(true, false, false), Err(StartupFault::MainWindowMissing));
    assert_eq!(exit_code(Err(StartupFault::EventLoopFailed)), FAULT_EXIT_CODE);
}

#[test]
fn a_started_shell_is_a_success() {
    assert_eq!(startup_outcome(true, true, true), Ok(()));
    assert_eq!(startup_outcome(false, true, true), Ok(()));
    assert_eq!(startup_outcome(false, false, true), Ok(()));
    assert_eq!(exit_code(Ok(())), 0);
}

#[test]
fn each_fault_has_its_diagnostic() {
    assert_eq!(
        diagnostic(StartupFault::EventLoopFailed),
        "error while running tauri application"
    );
    assert_eq!(
        diagnostic(StartupFault::MainWindowMissing),
        "called `Option::unwrap()` on a `None` value"
    );
}

#[test]
fn the_main_window_is_labelled_main() {
    assert_eq!(main_window_label(), "main");
}

#[test]
fn both_command_names_are_registered() {
    assert_eq!(lookup_command("get_current_time_iso"), Some(Command::CurrentTimeIso));
    assert_eq!(lookup_command("get_current_timestamp"), Some(Command::CurrentTimestamp));
}

#[test]
fn other_names_are_not_registered() {
    assert_eq!(lookup_command(""), None);
    assert_eq!(lookup_command("get_current_time"), None);
    assert_eq!(lookup_command("GET_CURRENT_TIME_ISO"), None);
    assert_eq!(lookup_command("get_current_time_iso "), None);
    assert_eq!(invoke("main"), None);
}

#[test]
fn invoking_a_command_answers_with_a_timestamp() {
    let a = invoke("get_current_time_iso").expect("registered");
    assert!(parse_rfc3339_millis(&a).is_some(), "{}", a);
    let b = invoke("get_current_timestamp").expect("registered");
    assert!(parse_rfc3339_millis(&b).is_some(), "{}", b);
    let c = run_command(Command::CurrentTimeIso);
    assert!(parse_rfc3339_millis(&c).is_some(), "{}", c);
}
