use ime_shift_fix::cli::{
    help_text, parse_cli, report_elevated_service_result, service_change_requires_elevation,
    Command, INVALID_ARGUMENTS,
};
use ime_shift_fix::service::{
    already_installed_notice, console_session, install_step, installed_notice, installed_from_open, needs_stop, not_installed_notice,
    removal_check, service_command_line, start_report, start_request_result, status_report,
    stop_report, stop_request_result, uninstalled_notice, user_process_notice, wait_is_over,
    InstallStep, ServiceRuntime, StatusReport, DISPLAY_NAME, NAME, SERVICE_OPTION,
    SERVICE_STATE_TIMEOUT_MS, USER_OPTION,
};
use ime_shift_fix::win32::{
    SERVICE_ACCEPT_STOP, SERVICE_CONTROL_STOP, SERVICE_RUNNING, SERVICE_START_PENDING,
    SERVICE_STOPPED, SERVICE_STOP_PENDING, SERVICE_WIN32_OWN_PROCESS,
};

fn args(list: &[&str]) -> Vec<String> {
    list.iter().map(|s| s.to_string()).collect()
}

fn hr(code: u32) -> i32 {
    windows_core::HRESULT::from_win32(code).0
}

#[test]
fn commands_from_arguments() {
    let cases = [
        (vec!["ime_shift_fix.exe"], Command::Foreground),
        (vec!["p", "-h"], Command::Help),
        (vec!["p", "--help"], Command::Help),
        (vec!["p", "--install"], Command::Install),
        (vec!["p", "--uninstall"], Command::Uninstall),
        (vec!["p", "--service"], Command::Service),
        (vec!["p", "--user"], Command::User),
        (vec!["p", "--bogus"], Command::Invalid),
        (vec!["p", "--install", "--user"], Command::Invalid),
        (vec!["p", "-H"], Command::Invalid),
        (vec!["p", ""], Command::Invalid),
    ];
    for (list, expected) in cases {
        let cli = parse_cli(&args(&list));
        assert_eq!(cli.command, expected, "{:?}", list);
        assert_eq!(cli.program, list[0]);
    }
}

#[test]
fn missing_program_name_defaults_to_service_name() {
    let cli = parse_cli(&Vec::new());
    assert_eq!(cli.program, NAME);
    assert_eq!(cli.command, Command::Foreground);
}

#[test]
fn help_text_names_program() {
    let text = help_text("tool.exe");
    assert_eq!(
        text,
        "Usage: tool.exe [OPTION]\n\nOptions:\n  --install       Install and start the Windows service\n  --uninstall     Stop and uninstall the Windows service\n  --service       Run as a Windows service (used by SCM)\n  -h, --help      Show this help\n\nWithout options, runs in the foreground."
    );
    assert_eq!(INVALID_ARGUMENTS, "Unknown or invalid arguments.\n");
}

#[test]
fn elevation_only_for_real_changes() {
    let (needed, notice) = service_change_requires_elevation("--install", true);
    assert!(!needed);
    let notice = notice.unwrap();
    assert!(notice.to_stderr);
    assert_eq!(notice.text, "Service IME Shift Fix already installed");

    let (needed, notice) = service_change_requires_elevation("--uninstall", false);
    assert!(!needed);
    assert_eq!(notice.unwrap().text, "Service IME Shift Fix is not installed");

    assert_eq!(service_change_requires_elevation("--install", false), (true, None));
    assert_eq!(service_change_requires_elevation("--uninstall", true), (true, None));
    assert_eq!(service_change_requires_elevation("--other", true), (true, None));
}

#[test]
fn elevated_install_reports() {
    let n = report_elevated_service_result("--install", Some(true), 0);
    assert!(!n.to_stderr);
    assert_eq!(n.text, "Install completed: service IME Shift Fix is installed.");
    let n = report_elevated_service_result("--install", Some(true), 5);
    assert!(n.to_stderr);
    assert_eq!(n.text, "Install finished with exit code 5, but service IME Shift Fix is installed.");
    let n = report_elevated_service_result("--install", Some(false), 1223);
    assert!(n.to_stderr);
    assert_eq!(n.text, "Install did not complete: service IME Shift Fix is not installed. Exit code: 1223.");
}

#[test]
fn elevated_uninstall_reports() {
    let n = report_elevated_service_result("--uninstall", Some(false), 0);
    assert!(!n.to_stderr);
    assert_eq!(n.text, "Uninstall completed: service IME Shift Fix has been uninstalled.");
    let n = report_elevated_service_result("--uninstall", Some(false), 2);
    assert!(n.to_stderr);
    assert_eq!(n.text, "Uninstall finished with exit code 2, and service IME Shift Fix is not installed.");
    let n = report_elevated_service_result("--uninstall", Some(true), 0);
    assert!(n.to_stderr);
    assert_eq!(n.text, "Uninstall did not complete: service IME Shift Fix still exists. Exit code: 0.");
}

#[test]
fn elevated_other_and_unknown_state_reports() {
    let n = report_elevated_service_result("--install", None, 4294967295);
    assert!(n.to_stderr);
    assert_eq!(
        n.text,
        "Elevated --install finished, but service state could not be queried. Exit code: 4294967295."
    );
    let n = report_elevated_service_result("--other", Some(true), 3);
    assert!(!n.to_stderr);
    assert_eq!(n.text, "Elevated --other finished. Exit code: 3.");
}

#[test]
fn opening_the_service() {
    assert_eq!(installed_from_open(None), Ok(true));
    assert_eq!(installed_from_open(Some(hr(1060))), Ok(false));
    assert_eq!(installed_from_open(Some(hr(5))), Err(hr(5)));
    assert_eq!(install_step(None), Ok(InstallStep::StartExisting));
    assert_eq!(install_step(Some(hr(1060))), Ok(InstallStep::Create));
    assert_eq!(install_step(Some(hr(5))), Err(hr(5)));
    assert_eq!(already_installed_notice(), "Service already installed: IME Shift Fix");
    assert_eq!(installed_notice(), "Service installed: IME Shift Fix");
}

#[test]
fn command_lines() {
    assert_eq!(service_command_line("C:\\bin\\ime_shift_fix.exe", SERVICE_OPTION), "\"C:\\bin\\ime_shift_fix.exe\" --service");
    assert_eq!(service_command_line("C:\\a b\\x.exe", USER_OPTION), "\"C:\\a b\\x.exe\" --user");
}

#[test]
fn starting() {
    assert_eq!(start_request_result(None), Ok(()));
    assert_eq!(start_request_result(Some(hr(1056))), Ok(()));
    assert_eq!(start_request_result(Some(hr(1060))), Err(hr(1060)));
    assert_eq!(start_report(SERVICE_RUNNING), "Service started: IME Shift Fix");
    assert_eq!(start_report(SERVICE_START_PENDING), "Service start requested, current state: 2");
}

#[test]
fn stopping() {
    assert!(!needs_stop(SERVICE_STOPPED));
    assert!(needs_stop(SERVICE_RUNNING));
    assert_eq!(stop_request_result(None), Ok(true));
    assert_eq!(stop_request_result(Some(hr(1062))), Ok(false));
    assert_eq!(stop_request_result(Some(hr(5))), Err(hr(5)));
    assert_eq!(stop_report(SERVICE_STOPPED), (true, "Service stopped: IME Shift Fix".to_string()));
    assert_eq!(stop_report(SERVICE_STOP_PENDING), (false, "Service stop requested, current state: 3".to_string()));
}

#[test]
fn waiting() {
    assert!(wait_is_over(SERVICE_RUNNING, SERVICE_RUNNING, 0, SERVICE_STATE_TIMEOUT_MS));
    assert!(!wait_is_over(SERVICE_START_PENDING, SERVICE_RUNNING, 14_999, SERVICE_STATE_TIMEOUT_MS));
    assert!(wait_is_over(SERVICE_START_PENDING, SERVICE_RUNNING, 15_000, SERVICE_STATE_TIMEOUT_MS));
}

#[test]
fn removing() {
    assert_eq!(removal_check(true, SERVICE_RUNNING), None);
    assert_eq!(removal_check(false, SERVICE_STOPPED), None);
    assert_eq!(
        removal_check(false, SERVICE_STOP_PENDING),
        Some("Service IME Shift Fix is not stopped; uninstall aborted. Current state: 3".to_string())
    );
    assert_eq!(not_installed_notice(), "Service IME Shift Fix is not installed.");
    assert_eq!(uninstalled_notice(), "Service IME Shift Fix uninstalled.");
}

#[test]
fn user_session() {
    let err = console_session(u32::MAX).unwrap_err();
    assert_eq!(err.hresult, 0x8000_4005u32 as i32);
    assert_eq!(err.message, "No active console session");
    assert_eq!(console_session(1), Ok(1));
    assert_eq!(console_session(0), Ok(0));
    assert_eq!(user_process_notice(4242), "User session process started: pid 4242");
    assert_eq!(DISPLAY_NAME, "IME Shift Fix");
}

#[test]
fn status_reports() {
    let running = status_report(SERVICE_RUNNING, 0);
    assert_eq!(
        running,
        StatusReport {
            service_type: SERVICE_WIN32_OWN_PROCESS,
            current_state: SERVICE_RUNNING,
            controls_accepted: SERVICE_ACCEPT_STOP,
            win32_exit_code: 0,
            service_specific_exit_code: 0,
            check_point: 0,
            wait_hint: 0,
        }
    );
    assert_eq!(status_report(SERVICE_STOPPED, 1).controls_accepted, 0);
    assert_eq!(status_report(SERVICE_STOPPED, 1).win32_exit_code, 1);
}

#[test]
fn service_life_cycle() {
    let mut rt = ServiceRuntime::new();
    assert_eq!(rt.report(SERVICE_RUNNING, 0), None);
    assert_eq!(rt.on_registered(77), Some(status_report(SERVICE_START_PENDING, 0)));
    assert_eq!(rt.on_launched(99), Some(status_report(SERVICE_RUNNING, 0)));
    assert!(rt.keeps_waiting());
    assert_eq!(rt.on_finished(), Some(status_report(SERVICE_STOPPED, 0)));
    assert_eq!(rt.user_process, 0);
}

#[test]
fn failed_launch() {
    let mut rt = ServiceRuntime::new();
    rt.on_registered(77);
    assert_eq!(rt.on_launch_failed(), Some(status_report(SERVICE_STOPPED, 1)));
}

#[test]
fn stop_control() {
    let mut rt = ServiceRuntime::new();
    rt.on_registered(77);
    rt.on_launched(99);
    let response = rt.on_control(SERVICE_CONTROL_STOP);
    assert_eq!(response.report, Some(status_report(SERVICE_STOP_PENDING, 0)));
    assert_eq!(response.terminate, Some(99));
    assert!(!rt.keeps_waiting());

    let mut idle = ServiceRuntime::new();
    let response = idle.on_control(SERVICE_CONTROL_STOP);
    assert_eq!(response.report, None);
    assert_eq!(response.terminate, None);
    assert!(idle.stop_requested);

    let mut other = ServiceRuntime::new();
    other.on_registered(1);
    let before = other;
    let response = other.on_control(4);
    assert_eq!((response.report, response.terminate), (None, None));
    assert_eq!(other, before);
}
