use websql_bootstrap::lifecycle::{
    compositing_override, startup_message, step, LifecycleState, ShellEvent,
};
use websql_bootstrap::logline::{append_line, format_log_line, timestamped_line};
use websql_bootstrap::paths::resolve_log_path;
use websql_bootstrap::plugins::{plugin_set, Plugin};

#[test]
fn resolve_log_path_profile_wins() {
    let p = resolve_log_path(
        Some(String::from("C:\\Users\\dev")),
        Some(String::from("/home/dev")),
    );
    assert_eq!(p, "C:\\Users\\dev/websql-debug.log");
}

#[test]
fn resolve_log_path_home_when_no_profile() {
    let p = resolve_log_path(None, Some(String::from("/home/dev")));
    assert_eq!(p, "/home/dev/websql-debug.log");
}

#[test]
fn resolve_log_path_profile_alone() {
    let p = resolve_log_path(Some(String::from("/root")), None);
    assert_eq!(p, "/root/websql-debug.log");
}

#[test]
fn resolve_log_path_current_dir_when_unset() {
    assert_eq!(resolve_log_path(None, None), "./websql-debug.log");
}

#[test]
fn format_log_line_exact() {
    assert_eq!(
        format_log_line("2024-01-02 03:04:05.006", "hello"),
        "[2024-01-02 03:04:05.006] hello"
    );
}

#[test]
fn two_appends_give_two_lines_in_order() {
    let first = format_log_line("2024-01-02 03:04:05.006", "first message");
    let second = format_log_line("2024-01-02 03:04:05.007", "second message");
    let content = append_line("", &first);
    let content = append_line(&content, &second);
    assert_eq!(
        content,
        "[2024-01-02 03:04:05.006] first message\n[2024-01-02 03:04:05.007] second message\n"
    );
    let lines: Vec<&str> = content.lines().collect();
    assert_eq!(lines.len(), 2);
    assert_eq!(lines[0], "[2024-01-02 03:04:05.006] first message");
    assert_eq!(lines[1], "[2024-01-02 03:04:05.007] second message");
}

#[test]
fn timestamped_line_wraps_message() {
    let line = timestamped_line("hello world");
    assert!(line.starts_with('['));
    assert!(line.ends_with("] hello world"));
    assert!(!line.contains('\n'));
    let close = line.find(']').unwrap();
    let ts = &line[1..close];
    assert_eq!(ts.len(), 23);
    assert!(ts[0..4].chars().all(|c| c.is_ascii_digit()));
    assert_eq!(&ts[4..5], "-");
    assert_eq!(&ts[7..8], "-");
    assert_eq!(&ts[10..11], " ");
    assert_eq!(&ts[13..14], ":");
    assert_eq!(&ts[16..17], ":");
    assert_eq!(&ts[19..20], ".");
}

#[test]
fn startup_message_names_path_and_startup() {
    let path = resolve_log_path(None, None);
    let msg = startup_message(&path);
    assert_eq!(msg, "WebSQL starting up - Log file: ./websql-debug.log");
    assert!(msg.contains("starting up"));
}

#[test]
fn setup_moves_starting_to_running() {
    let out = step(LifecycleState::Starting, ShellEvent::SetupComplete);
    assert_eq!(out.next, LifecycleState::Running);
    assert_eq!(out.log_message.unwrap(), "Tauri app setup complete");
    assert!(out.abort_message.is_none());
}

#[test]
fn run_success_logs_normal_exit_without_fault() {
    let out = step(LifecycleState::Running, ShellEvent::RunSucceeded);
    assert_eq!(out.next, LifecycleState::ExitedNormally);
    assert_eq!(out.log_message.unwrap(), "WebSQL exited normally");
    assert!(out.abort_message.is_none());
}

#[test]
fn run_failure_logs_error_and_demands_fault() {
    let out = step(
        LifecycleState::Running,
        ShellEvent::RunFailed(String::from("X")),
    );
    assert_eq!(out.next, LifecycleState::ExitedWithFault);
    let log = out.log_message.unwrap();
    assert!(log.contains("X"));
    assert_eq!(log, "Error running tauri application: X");
    assert_eq!(
        out.abort_message.unwrap(),
        "Failed to run tauri application: X"
    );
}

#[test]
fn run_failure_before_setup_is_fatal_too() {
    let out = step(
        LifecycleState::Starting,
        ShellEvent::RunFailed(String::from("boot error")),
    );
    assert_eq!(out.next, LifecycleState::ExitedWithFault);
    assert_eq!(
        out.log_message.unwrap(),
        "Error running tauri application: boot error"
    );
    assert_eq!(
        out.abort_message.unwrap(),
        "Failed to run tauri application: boot error"
    );
}

#[test]
fn terminal_states_absorb_events() {
    let out = step(LifecycleState::ExitedNormally, ShellEvent::SetupComplete);
    assert_eq!(out.next, LifecycleState::ExitedNormally);
    assert!(out.log_message.is_none());
    assert!(out.abort_message.is_none());

    let out = step(LifecycleState::ExitedWithFault, ShellEvent::RunSucceeded);
    assert_eq!(out.next, LifecycleState::ExitedWithFault);
    assert!(out.log_message.is_none());
    assert!(out.abort_message.is_none());
}

#[test]
fn plugin_set_is_the_declared_static_list() {
    let plugins = plugin_set();
    assert_eq!(
        plugins,
        vec![
            Plugin::FileSystem,
            Plugin::Dialog,
            Plugin::Updater,
            Plugin::ProcessControl
        ]
    );
}

#[test]
fn compositing_override_is_fixed() {
    let (key, value) = compositing_override();
    assert_eq!(key, "WEBKIT_DISABLE_COMPOSITING_MODE");
    assert_eq!(value, "1");
}
