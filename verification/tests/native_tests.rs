//! The native strategy: surface naming and configuration, launch
//! requests, and the wait/cancel/terminate protocol.

use transparent_runner::command::CommandSpec;
use transparent_runner::native::{
    classify_wait_result, CancellationSignal, ProcessInfo, SessionPhase, TransparentRunnerImpl,
    VirtualDesktop, VirtualDesktopProcess, WaitStatus, STILL_ACTIVE_CODE, WAIT_FAILED_CODE,
    WAIT_OBJECT_CANCEL, WAIT_OBJECT_PROCESS,
};

const PREFIX: &str = "virtual-desktop-runner/";

#[test]
fn surface_name_carries_prefix_and_unique_suffix() {
    let first = VirtualDesktop::new();
    let second = VirtualDesktop::new();
    assert!(first.name().starts_with(PREFIX));
    assert!(second.name().starts_with(PREFIX));
    assert_eq!(first.name().chars().count(), PREFIX.chars().count() + 36);
    assert_ne!(first.name(), second.name());
}

#[test]
fn surface_configuration_binds_name_and_standard_streams() {
    let desktop = VirtualDesktop::new();
    let config = desktop.launch_config();
    assert_eq!(&config.desktop_name, desktop.name());
    assert!(config.inherit_standard_streams);
    desktop.close();
}

#[test]
fn launch_request_is_bound_to_the_surface() {
    let desktop = VirtualDesktop::new();
    let path = String::from("prog");
    let args = vec![String::from("a")];
    let launch = desktop.spawn_process(&path, &args);
    assert_eq!(
        launch.command_buffer,
        vec!['p' as u16, 'r' as u16, 'o' as u16, 'g' as u16, 0, 'a' as u16, 0, 0]
    );
    assert_eq!(launch.config.desktop_name, *desktop.name());
    assert!(launch.config.inherit_standard_streams);
    desktop.close();
}

#[test]
fn native_runner_builds_surface_and_launch_together() {
    let runner = TransparentRunnerImpl::default();
    let mut command = CommandSpec::new(String::from("app.exe"));
    command.arg(String::from("--flag"));
    let (desktop, launch) = runner.spawn_transparent(&command);
    assert_eq!(launch.config.desktop_name, *desktop.name());
    let expected: Vec<u16> = "app.exe\0--flag\0\0".encode_utf16().collect();
    assert_eq!(launch.command_buffer, expected);
    desktop.close();
}

#[test]
fn natural_exit_completes_with_its_code() {
    let session = VirtualDesktopProcess::started(ProcessInfo { process_handle: 11, process_id: 42 });
    assert_eq!(session.phase(), SessionPhase::Running);
    assert_eq!(session.process_info().process_id, 42);
    assert!(!session.cancel_event().is_set());
    let (session, outcome) = session.resolve_wake(7);
    assert_eq!(outcome, 7);
    assert_eq!(session.phase(), SessionPhase::Completed);
    assert_eq!(session.process_info().process_id, 42);
}

#[test]
fn cancellation_wake_forces_termination_and_reports_zero() {
    let session = VirtualDesktopProcess::started(ProcessInfo { process_handle: 3, process_id: 9 });
    let (session, outcome) = session.resolve_wake(STILL_ACTIVE_CODE);
    assert_eq!(outcome, 0);
    assert_eq!(session.phase(), SessionPhase::ForceTerminated);
    assert_ne!(session.phase(), SessionPhase::Running);
}

#[test]
fn kill_forces_termination() {
    let session = VirtualDesktopProcess::started(ProcessInfo { process_handle: 5, process_id: 1 });
    let session = session.kill();
    assert_eq!(session.phase(), SessionPhase::ForceTerminated);
}

#[test]
fn cancellation_signal_is_manual_reset_and_single_use() {
    let mut signal = CancellationSignal::new();
    assert!(!signal.is_set());
    signal.fire();
    assert!(signal.is_set());
    signal.fire();
    assert!(signal.is_set());
}

#[test]
fn wait_results_classify_as_the_protocol_expects() {
    assert_eq!(classify_wait_result(WAIT_OBJECT_PROCESS), WaitStatus::Proceed);
    assert_eq!(classify_wait_result(WAIT_OBJECT_CANCEL), WaitStatus::Proceed);
    assert_eq!(classify_wait_result(WAIT_FAILED_CODE), WaitStatus::Failed);
    assert_eq!(classify_wait_result(128), WaitStatus::Unexpected);
    assert_eq!(classify_wait_result(258), WaitStatus::Unexpected);
}

#[test]
fn blocking_mode_reports_the_childs_own_code() {
    let runner = TransparentRunnerImpl::default();
    let command = CommandSpec::new(String::from("prog"));
    let (desktop, _launch) = runner.spawn_transparent(&command);
    let session = VirtualDesktopProcess::started(ProcessInfo { process_handle: 4, process_id: 6 });
    let (session, outcome) = runner.finish_blocking_run(desktop, session, 7);
    assert_eq!(outcome, 7);
    assert_eq!(session.phase(), SessionPhase::Completed);
}

#[test]
fn blocking_mode_resolves_cancellation_to_zero_and_no_running_process() {
    let runner = TransparentRunnerImpl::default();
    let command = CommandSpec::new(String::from("prog"));
    let (desktop, _launch) = runner.spawn_transparent(&command);
    let session = VirtualDesktopProcess::started(ProcessInfo { process_handle: 4, process_id: 6 });
    let (session, outcome) = runner.finish_blocking_run(desktop, session, STILL_ACTIVE_CODE);
    assert_eq!(outcome, 0);
    assert_ne!(session.phase(), SessionPhase::Running);
    assert_eq!(session.phase(), SessionPhase::ForceTerminated);
}

#[test]
fn large_exit_codes_wrap_like_the_platform_reports_them() {
    let session = VirtualDesktopProcess::started(ProcessInfo { process_handle: 8, process_id: 2 });
    let (_, outcome) = session.resolve_wake(0xC000_0005u32);
    assert_eq!(outcome, 0xC000_0005u32 as i32);
}
