use vyre_shell::commands::{backend_ready, backend_ready_log, close_window};
use vyre_shell::events::{observe_event, WindowEvent};
use vyre_shell::logging::LogLevel;
use vyre_shell::shell::{setup, startup_log, Shell};
use vyre_shell::window::{WindowModel, WindowState};

fn open_main_window() -> WindowModel {
    WindowModel {
        label: String::from("main"),
        state: WindowState::Open,
        observer_attached: true,
    }
}

#[test]
fn backend_ready_always_true() {
    for _ in 0..5 {
        assert!(backend_ready());
    }
}

#[test]
fn backend_ready_logs_one_info_line() {
    let entry = backend_ready_log();
    assert_eq!(entry.level, LogLevel::Info);
    assert_eq!(entry.message, "Backend is ready");
}

#[test]
fn startup_log_line() {
    let entry = startup_log();
    assert_eq!(entry.level, LogLevel::Info);
    assert_eq!(entry.message, "Starting application");
}

#[test]
fn close_window_success_closes_and_logs_request() {
    let mut window = open_main_window();
    let logs = close_window(&mut window, Ok(()));
    assert_eq!(window.state, WindowState::Closed);
    assert_eq!(logs.len(), 1);
    assert_eq!(logs[0].level, LogLevel::Info);
    assert_eq!(logs[0].message, "Window close requested: main");
}

#[test]
fn close_window_failure_keeps_window_open_and_warns() {
    let mut window = open_main_window();
    let logs = close_window(&mut window, Err(String::from("window is already closing")));
    assert_eq!(window.state, WindowState::Open);
    assert_eq!(logs.len(), 2);
    assert_eq!(logs[0].level, LogLevel::Info);
    assert_eq!(logs[0].message, "Window close requested: main");
    assert_eq!(logs[1].level, LogLevel::Warn);
    assert_eq!(
        logs[1].message,
        "Failed to close window main: window is already closing"
    );
}

#[test]
fn observer_logs_close_requested() {
    let line = observe_event(&WindowEvent::CloseRequested).expect("one log line");
    assert_eq!(line.level, LogLevel::Info);
    assert_eq!(line.message, "Window close requested");
}

#[test]
fn observer_logs_destroyed() {
    let line = observe_event(&WindowEvent::Destroyed).expect("one log line");
    assert_eq!(line.level, LogLevel::Info);
    assert_eq!(line.message, "Window destroyed");
}

#[test]
fn observer_logs_focus_change_both_ways() {
    let gained = observe_event(&WindowEvent::FocusChanged(true)).expect("one log line");
    assert_eq!(gained.level, LogLevel::Info);
    assert_eq!(gained.message, "Window focus changed: true");

    let lost = observe_event(&WindowEvent::FocusChanged(false)).expect("one log line");
    assert_eq!(lost.level, LogLevel::Info);
    assert_eq!(lost.message, "Window focus changed: false");
}

#[test]
fn observer_ignores_other_events() {
    assert!(observe_event(&WindowEvent::Other).is_none());
}

#[test]
fn setup_with_window_attaches_observer_silently() {
    let (shell, logs) = setup(true);
    let window = shell.main_window.expect("main window");
    assert_eq!(window.label, "main");
    assert_eq!(window.state, WindowState::Open);
    assert!(window.observer_attached);
    assert!(logs.is_empty());
}

#[test]
fn setup_without_window_completes_with_warning() {
    let (shell, logs) = setup(false);
    assert!(shell.main_window.is_none());
    assert_eq!(logs.len(), 1);
    assert_eq!(logs[0].level, LogLevel::Warn);
    assert_eq!(
        logs[0].message,
        "Main window not found, skipping event handler setup"
    );
}

#[test]
fn event_delivery_with_detached_observer_is_silent() {
    let mut shell = Shell {
        main_window: Some(WindowModel {
            label: String::from("main"),
            state: WindowState::Open,
            observer_attached: false,
        }),
    };
    assert!(shell.on_window_event(&WindowEvent::CloseRequested).is_none());
    assert!(shell.on_window_event(&WindowEvent::FocusChanged(true)).is_none());
}

#[test]
fn destroyed_event_closes_the_window() {
    let (mut shell, _) = setup(true);
    let line = shell.on_window_event(&WindowEvent::Destroyed).expect("one log line");
    assert_eq!(line.message, "Window destroyed");
    let window = shell.main_window.as_ref().expect("main window");
    assert_eq!(window.state, WindowState::Closed);
}

#[test]
fn scenario_backend_ready_after_start() {
    let (shell, _) = setup(true);
    assert!(shell.main_window.is_some());
    assert!(backend_ready());
}

#[test]
fn scenario_close_main_window_ends_run_loop() {
    let (mut shell, setup_logs) = setup(true);
    assert!(setup_logs.is_empty());
    assert!(shell.run_loop_exit().is_none());

    let mut window = shell.main_window.take().expect("main window");
    let close_logs = close_window(&mut window, Ok(()));
    assert_eq!(close_logs.len(), 1);
    shell.main_window = Some(window);

    let line = shell.on_window_event(&WindowEvent::Destroyed).expect("one log line");
    assert_eq!(line.message, "Window destroyed");
    assert_eq!(shell.run_loop_exit(), Some(0));
}

#[test]
fn scenario_setup_without_main_window_keeps_running() {
    let (mut shell, logs) = setup(false);
    assert_eq!(logs.len(), 1);
    assert_eq!(logs[0].level, LogLevel::Warn);

    assert!(shell.on_window_event(&WindowEvent::CloseRequested).is_none());
    assert!(shell.run_loop_exit().is_none());
    assert!(backend_ready());
}
