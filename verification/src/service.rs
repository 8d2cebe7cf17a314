//! Decisions of the Windows service: installing, starting, stopping and
//! removing it, and the life cycle the service reports to the service control
//! manager while it keeps the hook process running in the user's session.

use vstd::prelude::*;
use crate::text::{decimal, push_decimal};
use crate::win32::{
    win32_to_hresult, E_FAIL, is_win32_error, ERROR_SERVICE_ALREADY_RUNNING, ERROR_SERVICE_DOES_NOT_EXIST,
    ERROR_SERVICE_NOT_ACTIVE, SERVICE_ACCEPT_STOP, SERVICE_CONTROL_STOP, SERVICE_RUNNING,
    SERVICE_START_PENDING, SERVICE_STOPPED, SERVICE_STOP_PENDING, SERVICE_WIN32_OWN_PROCESS,
};

verus! {

/// The service's name in the service control manager.
pub const NAME: &'static str = "ime_shift_fix";

/// The service's display name.
pub const DISPLAY_NAME: &'static str = "IME Shift Fix";

/// How long to wait for the service to reach a requested state.
pub const SERVICE_STATE_TIMEOUT_MS: u64 = 15_000;

/// The pause between two queries of the service state while waiting.
pub const STATE_POLL_INTERVAL_MS: u64 = 250;

/// How long the service waits on the user-session process before it checks
/// again whether a stop was requested.
pub const USER_PROCESS_WAIT_MS: u32 = 1000;

/// The session id `WTSGetActiveConsoleSessionId` returns when no user session
/// is attached to the console.
pub const NO_CONSOLE_SESSION: u32 = 0xFFFF_FFFF;

/// The desktop the user-session process is started on.
pub const USER_DESKTOP: &'static str = "winsta0\\default";

/// The option that makes the program run as the service.
pub const SERVICE_OPTION: &'static str = "--service";

/// The option that makes the program run the hooks for the service.
pub const USER_OPTION: &'static str = "--user";

/// The `HRESULT` of `ERROR_SERVICE_DOES_NOT_EXIST`.
pub open spec fn does_not_exist() -> int {
    win32_to_hresult(ERROR_SERVICE_DOES_NOT_EXIST)
}

/// Whether the service exists, from the outcome of opening it (`None`: it
/// opened; `Some(h)`: it failed with `HRESULT` `h`): a missing service is no
/// error, any other failure is.
pub fn installed_from_open(open_error: Option<i32>) -> (installed: Result<bool, i32>)
    ensures
        open_error is None ==> installed == Ok::<bool, i32>(true),
        open_error == Some(win32_to_hresult(ERROR_SERVICE_DOES_NOT_EXIST) as i32) ==> installed
            == Ok::<bool, i32>(false),
        open_error is Some && open_error->0 != win32_to_hresult(ERROR_SERVICE_DOES_NOT_EXIST)
            ==> installed == Err::<bool, i32>(open_error->0),
        installed == match open_error {
            None => Ok(true),
            Some(h) => if h == does_not_exist() {
                Ok(false)
            } else {
                Err(h)
            },
        },
{
    match open_error {
        None => Ok(true),
        Some(h) => {
            if is_win32_error(h, ERROR_SERVICE_DOES_NOT_EXIST) {
                Ok(false)
            } else {
                Err(h)
            }
        },
    }
}

/// What installing does once the service manager was asked for the service.
#[derive(Clone, Copy, Debug, PartialEq, Eq)]
pub enum InstallStep {
    /// The service exists: say so and start it.
    StartExisting,
    /// The service does not exist: create it, say so, and start it.
    Create,
}

/// The install step, from the outcome of opening the service.
pub fn install_step(open_error: Option<i32>) -> (step: Result<InstallStep, i32>)
    ensures
        open_error is None ==> step == Ok::<InstallStep, i32>(InstallStep::StartExisting),
        open_error == Some(win32_to_hresult(ERROR_SERVICE_DOES_NOT_EXIST) as i32) ==> step
            == Ok::<InstallStep, i32>(InstallStep::Create),
        open_error is Some && open_error->0 != win32_to_hresult(ERROR_SERVICE_DOES_NOT_EXIST)
            ==> step == Err::<InstallStep, i32>(open_error->0),
        step == match open_error {
            None => Ok(InstallStep::StartExisting),
            Some(h) => if h == does_not_exist() {
                Ok(InstallStep::Create)
            } else {
                Err(h)
            },
        },
{
    match installed_from_open(open_error) {
        Ok(true) => Ok(InstallStep::StartExisting),
        Ok(false) => Ok(InstallStep::Create),
        Err(h) => Err(h),
    }
}

/// The command line `"<exe>" <option>`.
pub open spec fn command_line_text(exe: Seq<char>, option: Seq<char>) -> Seq<char> {
    "\""@ + exe + "\" "@ + option
}

/// The command line that starts `exe` with `option`: the path in double
/// quotes, a space, the option.
pub fn service_command_line(exe: &str, option: &str) -> (line: String)
    ensures
        line@ == command_line_text(exe@, option@),
        line@ == "\""@ + exe@ + "\" "@ + option@,
{
    let mut line = String::from_str("\"");
    line.append(exe);
    line.append("\" ");
    line.append(option);
    line
}

/// The text said when installing finds the service already there.
pub open spec fn already_installed_text() -> Seq<char> {
    "Service already installed: "@ + DISPLAY_NAME@
}

/// The line printed when installing finds the service already there; the
/// existing service is then started, not created again.
pub fn already_installed_notice() -> (text: String)
    ensures
        text@ == already_installed_text(),
        text@ == "Service already installed: "@ + DISPLAY_NAME@,
{
    let mut text = String::from_str("Service already installed: ");
    text.append(DISPLAY_NAME);
    text
}

/// The text said once the service is created.
pub open spec fn installed_text() -> Seq<char> {
    "Service installed: "@ + DISPLAY_NAME@
}

/// The line printed once the service is created.
pub fn installed_notice() -> (text: String)
    ensures
        text@ == installed_text(),
        text@ == "Service installed: "@ + DISPLAY_NAME@,
{
    let mut text = String::from_str("Service installed: ");
    text.append(DISPLAY_NAME);
    text
}

/// The outcome of asking the service to start: a service that already runs
/// is no error.
pub fn start_request_result(start_error: Option<i32>) -> (r: Result<(), i32>)
    ensures
        r == match start_error {
            None => Ok(()),
            Some(h) => if h == win32_to_hresult(ERROR_SERVICE_ALREADY_RUNNING) {
                Ok(())
            } else {
                Err(h)
            },
        },
{
    match start_error {
        None => Ok(()),
        Some(h) => {
            if is_win32_error(h, ERROR_SERVICE_ALREADY_RUNNING) {
                Ok(())
            } else {
                Err(h)
            }
        },
    }
}

/// What is said once the wait for the start is over.
pub open spec fn start_report_text(state: u32) -> Seq<char> {
    if state == SERVICE_RUNNING {
        "Service started: "@ + DISPLAY_NAME@
    } else {
        "Service start requested, current state: "@ + decimal(state as nat)
    }
}

/// The line printed once the wait for the start is over, in state `state`.
pub fn start_report(state: u32) -> (text: String)
    ensures
        text@ == start_report_text(state),
        state == SERVICE_RUNNING ==> text@ == "Service started: "@ + DISPLAY_NAME@,
        state != SERVICE_RUNNING ==> text@ == "Service start requested, current state: "@
            + decimal(state as nat),
{
    if state == SERVICE_RUNNING {
        let mut text = String::from_str("Service started: ");
        text.append(DISPLAY_NAME);
        text
    } else {
        let mut text = String::from_str("Service start requested, current state: ");
        push_decimal(&mut text, state as u64);
        text
    }
}

/// Whether a service in state `state` has to be asked to stop.
pub fn needs_stop(state: u32) -> (needed: bool)
    ensures
        needed == (state != SERVICE_STOPPED),
{
    state != SERVICE_STOPPED
}

/// The outcome of asking the service to stop: `Ok(true)` to wait for it to
/// stop; `Ok(false)` when it was not running, so stopping it did nothing.
pub fn stop_request_result(control_error: Option<i32>) -> (r: Result<bool, i32>)
    ensures
        r == match control_error {
            None => Ok(true),
            Some(h) => if h == win32_to_hresult(ERROR_SERVICE_NOT_ACTIVE) {
                Ok(false)
            } else {
                Err(h)
            },
        },
{
    match control_error {
        None => Ok(true),
        Some(h) => {
            if is_win32_error(h, ERROR_SERVICE_NOT_ACTIVE) {
                Ok(false)
            } else {
                Err(h)
            }
        },
    }
}

/// What is said once the wait for the stop is over.
pub open spec fn stop_report_text(state: u32) -> Seq<char> {
    if state == SERVICE_STOPPED {
        "Service stopped: "@ + DISPLAY_NAME@
    } else {
        "Service stop requested, current state: "@ + decimal(state as nat)
    }
}

/// The line printed once the wait for the stop is over, in state `state`, and
/// whether the service did stop.
pub fn stop_report(state: u32) -> (report: (bool, String))
    ensures
        report.0 == (state == SERVICE_STOPPED),
        report.1@ == stop_report_text(state),
        state == SERVICE_STOPPED ==> report.1@ == "Service stopped: "@ + DISPLAY_NAME@,
        state != SERVICE_STOPPED ==> report.1@ == "Service stop requested, current state: "@
            + decimal(state as nat),
{
    if state == SERVICE_STOPPED {
        let mut text = String::from_str("Service stopped: ");
        text.append(DISPLAY_NAME);
        (true, text)
    } else {
        let mut text = String::from_str("Service stop requested, current state: ");
        push_decimal(&mut text, state as u64);
        (false, text)
    }
}

/// Whether the wait for the service to reach `target` is over: it reached it,
/// or `timeout_ms` have passed.
pub fn wait_is_over(state: u32, target: u32, elapsed_ms: u64, timeout_ms: u64) -> (over: bool)
    ensures
        over == (state == target || elapsed_ms >= timeout_ms),
{
    state == target || elapsed_ms >= timeout_ms
}

/// The text said when the service to remove does not exist.
pub open spec fn not_installed_text() -> Seq<char> {
    "Service "@ + DISPLAY_NAME@ + " is not installed."@
}

/// The line printed when the service to remove does not exist.
pub fn not_installed_notice() -> (text: String)
    ensures
        text@ == not_installed_text(),
        text@ == "Service "@ + DISPLAY_NAME@ + " is not installed."@,
{
    let mut text = String::from_str("Service ");
    text.append(DISPLAY_NAME);
    text.append(" is not installed.");
    text
}

/// The text said when a service that would not stop is left in place.
pub open spec fn removal_blocked_text(state: u32) -> Seq<char> {
    "Service "@ + DISPLAY_NAME@ + " is not stopped; uninstall aborted. Current state: "@ + decimal(
        state as nat,
    )
}

/// Whether the service may be deleted, after stopping it reported `stopped`
/// and its state is now `state`: `None` when it may; otherwise the line that
/// says why it is left in place.
pub fn removal_check(stopped: bool, state: u32) -> (blocked: Option<String>)
    ensures
        (stopped || state == SERVICE_STOPPED) ==> blocked is None,
        !(stopped || state == SERVICE_STOPPED) ==> (blocked matches Some(text) && text@
            == removal_blocked_text(state)),
        !(stopped || state == SERVICE_STOPPED) ==> (blocked matches Some(text) && text@
            == "Service "@ + DISPLAY_NAME@ + " is not stopped; uninstall aborted. Current state: "@
            + decimal(state as nat)),
{
    if stopped || state == SERVICE_STOPPED {
        None
    } else {
        let mut text = String::from_str("Service ");
        text.append(DISPLAY_NAME);
        text.append(" is not stopped; uninstall aborted. Current state: ");
        push_decimal(&mut text, state as u64);
        Some(text)
    }
}

/// The text said once the service is removed.
pub open spec fn uninstalled_text() -> Seq<char> {
    "Service "@ + DISPLAY_NAME@ + " uninstalled."@
}

/// The line printed once the service is removed.
pub fn uninstalled_notice() -> (text: String)
    ensures
        text@ == uninstalled_text(),
        text@ == "Service "@ + DISPLAY_NAME@ + " uninstalled."@,
{
    let mut text = String::from_str("Service ");
    text.append(DISPLAY_NAME);
    text.append(" uninstalled.");
    text
}

/// A failure the service reports, as an `HRESULT` and a message.
#[derive(Debug, PartialEq, Eq)]
pub struct ServiceError {
    pub hresult: i32,
    pub message: String,
}

/// The session the user-session process is started in: the console session
/// `session_id`, or, when no user session is attached to the console, the
/// failure `E_FAIL` with the message "No active console session" (and no
/// process is started).
pub fn console_session(session_id: u32) -> (session: Result<u32, ServiceError>)
    ensures
        session_id != NO_CONSOLE_SESSION ==> session == Ok::<u32, ServiceError>(session_id),
        session_id == NO_CONSOLE_SESSION ==> (session matches Err(e) && e.hresult == E_FAIL
            && e.message@ == "No active console session"@),
{
    if session_id == NO_CONSOLE_SESSION {
        Err(
            ServiceError {
                hresult: E_FAIL,
                message: String::from_str("No active console session"),
            },
        )
    } else {
        Ok(session_id)
    }
}

/// The text said once the user-session process runs.
pub open spec fn user_process_text(pid: u32) -> Seq<char> {
    "User session process started: pid "@ + decimal(pid as nat)
}

/// The line printed once the user-session process with id `pid` runs.
pub fn user_process_notice(pid: u32) -> (text: String)
    ensures
        text@ == user_process_text(pid),
        text@ == "User session process started: pid "@ + decimal(pid as nat),
{
    let mut text = String::from_str("User session process started: pid ");
    push_decimal(&mut text, pid as u64);
    text
}

/// A status report to the service control manager (`SERVICE_STATUS`).
#[derive(Clone, Copy, Debug, PartialEq, Eq)]
pub struct StatusReport {
    pub service_type: u32,
    pub current_state: u32,
    pub controls_accepted: u32,
    pub win32_exit_code: u32,
    pub service_specific_exit_code: u32,
    pub check_point: u32,
    pub wait_hint: u32,
}

/// The report of state `state` with exit code `exit_code`: the service runs
/// in its own process and accepts a stop request exactly while it runs.
pub open spec fn status_of(state: u32, exit_code: u32) -> StatusReport {
    StatusReport {
        service_type: SERVICE_WIN32_OWN_PROCESS,
        current_state: state,
        controls_accepted: if state == SERVICE_RUNNING {
            SERVICE_ACCEPT_STOP
        } else {
            0
        },
        win32_exit_code: exit_code,
        service_specific_exit_code: 0,
        check_point: 0,
        wait_hint: 0,
    }
}

/// Builds the report of state `state` with exit code `exit_code`.
pub fn status_report(state: u32, exit_code: u32) -> (report: StatusReport)
    ensures
        report == status_of(state, exit_code),
        report.service_type == SERVICE_WIN32_OWN_PROCESS,
        report.current_state == state,
        report.controls_accepted == (if state == SERVICE_RUNNING {
            SERVICE_ACCEPT_STOP
        } else {
            0
        }),
        report.win32_exit_code == exit_code,
        report.service_specific_exit_code == 0,
        report.check_point == 0,
        report.wait_hint == 0,
{
    StatusReport {
        service_type: SERVICE_WIN32_OWN_PROCESS,
        current_state: state,
        controls_accepted: if state == SERVICE_RUNNING {
            SERVICE_ACCEPT_STOP
        } else {
            0
        },
        win32_exit_code: exit_code,
        service_specific_exit_code: 0,
        check_point: 0,
        wait_hint: 0,
    }
}

/// What the running service remembers: the handle its status goes to (0:
/// none registered yet), the user-session process (0: none), and whether a
/// stop was requested.
#[derive(Clone, Copy, Debug, PartialEq, Eq)]
pub struct ServiceRuntime {
    pub status_handle: isize,
    pub user_process: isize,
    pub stop_requested: bool,
}

/// What the control handler does for one control request.
#[derive(Clone, Copy, Debug, PartialEq, Eq)]
pub struct ControlResponse {
    /// The status to report, if any.
    pub report: Option<StatusReport>,
    /// The user-session process to terminate, if any.
    pub terminate: Option<isize>,
}

/// The report sent through `rt`'s status handle; none while no handle is
/// registered.
pub open spec fn report_through(rt: ServiceRuntime, state: u32, exit_code: u32) -> Option<
    StatusReport,
> {
    if rt.status_handle == 0 {
        None
    } else {
        Some(status_of(state, exit_code))
    }
}

/// The control handler's transition for the control code `control`: a stop
/// request reports a pending stop, remembers the request and terminates the
/// user-session process if there is one; anything else is ignored.
pub open spec fn control_transition(rt: ServiceRuntime, control: u32) -> (
    ServiceRuntime,
    ControlResponse,
) {
    if control == SERVICE_CONTROL_STOP {
        (
            ServiceRuntime { stop_requested: true, ..rt },
            ControlResponse {
                report: report_through(rt, SERVICE_STOP_PENDING, 0),
                terminate: if rt.user_process != 0 {
                    Some(rt.user_process)
                } else {
                    None
                },
            },
        )
    } else {
        (rt, ControlResponse { report: None, terminate: None })
    }
}

/// The runtime once the control handler is registered with `handle`.
pub open spec fn registered(rt: ServiceRuntime, handle: isize) -> ServiceRuntime {
    ServiceRuntime { status_handle: handle, stop_requested: false, ..rt }
}

/// The runtime once the user-session process `process` runs.
pub open spec fn launched(rt: ServiceRuntime, process: isize) -> ServiceRuntime {
    ServiceRuntime { user_process: process, ..rt }
}

/// The runtime once the wait on the user-session process is over.
pub open spec fn finished(rt: ServiceRuntime) -> ServiceRuntime {
    ServiceRuntime { user_process: 0, ..rt }
}

impl ServiceRuntime {
    /// Nothing registered, no process, no stop requested.
    pub fn new() -> (rt: Self)
        ensures
            rt == (ServiceRuntime { status_handle: 0, user_process: 0, stop_requested: false }),
    {
        ServiceRuntime { status_handle: 0, user_process: 0, stop_requested: false }
    }

    /// The report of `state` with `exit_code` through the registered handle.
    pub fn report(&self, state: u32, exit_code: u32) -> (report: Option<StatusReport>)
        ensures
            report == report_through(*self, state, exit_code),
            self.status_handle == 0 ==> report is None,
            self.status_handle != 0 ==> report == Some(status_of(state, exit_code)),
    {
        if self.status_handle == 0 {
            None
        } else {
            Some(status_report(state, exit_code))
        }
    }

    /// The control handler was registered with `handle`: remember it, clear
    /// any stop request, and report that the service is starting.
    pub fn on_registered(&mut self, handle: isize) -> (report: Option<StatusReport>)
        ensures
            *final(self) == registered(*old(self), handle),
            report == report_through(*final(self), SERVICE_START_PENDING, 0),
            final(self).status_handle == handle,
            !final(self).stop_requested,
            final(self).user_process == old(self).user_process,
            handle != 0 ==> report == Some(status_of(SERVICE_START_PENDING, 0)),
            handle == 0 ==> report is None,
    {
        self.status_handle = handle;
        self.stop_requested = false;
        self.report(SERVICE_START_PENDING, 0)
    }

    /// The user-session process could not be started: report that the
    /// service stopped with exit code 1.
    pub fn on_launch_failed(&self) -> (report: Option<StatusReport>)
        ensures
            report == report_through(*self, SERVICE_STOPPED, 1),
            self.status_handle != 0 ==> report == Some(status_of(SERVICE_STOPPED, 1)),
            self.status_handle == 0 ==> report is None,
    {
        self.report(SERVICE_STOPPED, 1)
    }

    /// The user-session process `process` runs: remember it and report that
    /// the service runs.
    pub fn on_launched(&mut self, process: isize) -> (report: Option<StatusReport>)
        ensures
            *final(self) == launched(*old(self), process),
            report == report_through(*final(self), SERVICE_RUNNING, 0),
            final(self).user_process == process,
            final(self).status_handle == old(self).status_handle,
            final(self).stop_requested == old(self).stop_requested,
            old(self).status_handle != 0 ==> report == Some(status_of(SERVICE_RUNNING, 0)),
            old(self).status_handle == 0 ==> report is None,
    {
        self.user_process = process;
        self.report(SERVICE_RUNNING, 0)
    }

    /// Whether the service keeps waiting on the user-session process (it
    /// stops waiting also when the process ends).
    pub fn keeps_waiting(&self) -> (waiting: bool)
        ensures
            waiting == !self.stop_requested,
    {
        !self.stop_requested
    }

    /// The wait is over: forget the process and report that the service
    /// stopped with exit code 0.
    pub fn on_finished(&mut self) -> (report: Option<StatusReport>)
        ensures
            *final(self) == finished(*old(self)),
            report == report_through(*final(self), SERVICE_STOPPED, 0),
            final(self).user_process == 0,
            final(self).status_handle == old(self).status_handle,
            final(self).stop_requested == old(self).stop_requested,
            old(self).status_handle != 0 ==> report == Some(status_of(SERVICE_STOPPED, 0)),
            old(self).status_handle == 0 ==> report is None,
    {
        self.user_process = 0;
        self.report(SERVICE_STOPPED, 0)
    }

    /// Handles one control request.
    pub fn on_control(&mut self, control: u32) -> (response: ControlResponse)
        ensures
            (*final(self), response) == control_transition(*old(self), control),
            control != SERVICE_CONTROL_STOP ==> *final(self) == *old(self) && response.report is None
                && response.terminate is None,
            control == SERVICE_CONTROL_STOP ==> ({
                &&& final(self).stop_requested
                &&& final(self).status_handle == old(self).status_handle
                &&& final(self).user_process == old(self).user_process
                &&& old(self).status_handle != 0 ==> response.report == Some(
                    status_of(SERVICE_STOP_PENDING, 0),
                )
                &&& old(self).status_handle == 0 ==> response.report is None
                &&& old(self).user_process != 0 ==> response.terminate == Some(
                    old(self).user_process,
                )
                &&& old(self).user_process == 0 ==> response.terminate is None
            }),
    {
        if control == SERVICE_CONTROL_STOP {
            let report = self.report(SERVICE_STOP_PENDING, 0);
            self.stop_requested = true;
            let terminate = if self.user_process != 0 {
                Some(self.user_process)
            } else {
                None
            };
            ControlResponse { report, terminate }
        } else {
            ControlResponse { report: None, terminate: None }
        }
    }
}

/// A service that registers, starts its user-session process and later sees
/// the wait end reports, in order: starting, running (accepting a stop
/// request), stopped with exit code 0; and it no longer holds the process.
pub proof fn service_reports_its_life_in_order(rt: ServiceRuntime, handle: isize, process: isize)
    requires
        handle != 0,
    ensures
        ({
            let r1 = registered(rt, handle);
            let r2 = launched(r1, process);
            let r3 = finished(r2);
            &&& report_through(r1, SERVICE_START_PENDING, 0) == Some(
                status_of(SERVICE_START_PENDING, 0),
            )
            &&& report_through(r2, SERVICE_RUNNING, 0) == Some(status_of(SERVICE_RUNNING, 0))
            &&& status_of(SERVICE_RUNNING, 0).controls_accepted == SERVICE_ACCEPT_STOP
            &&& report_through(r3, SERVICE_STOPPED, 0) == Some(status_of(SERVICE_STOPPED, 0))
            &&& r3.user_process == 0
            &&& !r1.stop_requested
        }),
{
}

/// A service whose user-session process cannot be started reports, after
/// starting, that it stopped with exit code 1.
pub proof fn failed_launch_reports_exit_code_one(rt: ServiceRuntime, handle: isize)
    requires
        handle != 0,
    ensures
        report_through(registered(rt, handle), SERVICE_STOPPED, 1) == Some(
            status_of(SERVICE_STOPPED, 1),
        ),
        status_of(SERVICE_STOPPED, 1).win32_exit_code == 1,
{
}

/// A stop request ends the wait on the user-session process, reports a
/// pending stop once a handle is registered, and terminates the process
/// exactly when there is one.
pub proof fn stop_request_ends_service(rt: ServiceRuntime)
    ensures
        ({
            let (after, response) = control_transition(rt, SERVICE_CONTROL_STOP);
            &&& after.stop_requested
            &&& after.user_process == rt.user_process
            &&& after.status_handle == rt.status_handle
            &&& (rt.status_handle != 0 ==> response.report == Some(
                status_of(SERVICE_STOP_PENDING, 0),
            ))
            &&& (rt.status_handle == 0 ==> response.report is None)
            &&& (rt.user_process != 0 ==> response.terminate == Some(rt.user_process))
            &&& (rt.user_process == 0 ==> response.terminate is None)
        }),
{
}

/// Controls other than a stop request change nothing and do nothing.
pub proof fn other_controls_ignored(rt: ServiceRuntime, control: u32)
    requires
        control != SERVICE_CONTROL_STOP,
    ensures
        control_transition(rt, control) == (rt, ControlResponse { report: None, terminate: None }),
{
}

/// The service accepts a stop request in its reports exactly while it runs,
/// and always reports that it runs in a process of its own.
pub proof fn only_a_running_service_accepts_stop(state: u32, exit_code: u32)
    ensures
        (status_of(state, exit_code).controls_accepted != 0) == (state == SERVICE_RUNNING),
        status_of(state, exit_code).service_type == SERVICE_WIN32_OWN_PROCESS,
        status_of(state, exit_code).current_state == state,
        status_of(state, exit_code).win32_exit_code == exit_code,
{
}

/// Nothing is reported before the control handler is registered.
pub proof fn no_report_without_handle(rt: ServiceRuntime, state: u32, exit_code: u32)
    requires
        rt.status_handle == 0,
    ensures
        report_through(rt, state, exit_code) is None,
{
}

/// The service is said to have started exactly when it runs: in any other
/// state the line says the start was requested and gives the state number,
/// and the two kinds of line differ.
pub proof fn started_only_when_running(state: u32)
    ensures
        state == SERVICE_RUNNING ==> start_report_text(state) == "Service started: "@
            + DISPLAY_NAME@,
        state != SERVICE_RUNNING ==> start_report_text(state)
            == "Service start requested, current state: "@ + decimal(state as nat),
        "Service started: "@ + DISPLAY_NAME@ != "Service start requested, current state: "@
            + decimal(state as nat),
{
    reveal_strlit("Service started: ");
    reveal_strlit("IME Shift Fix");
    reveal_strlit("Service start requested, current state: ");
    let a = "Service started: "@ + DISPLAY_NAME@;
    let b = "Service start requested, current state: "@ + decimal(state as nat);
    assert(a[13] == 'e');
    assert(b[13] == ' ');
}

/// The service is said to have stopped exactly when it is stopped: in any
/// other state the line says the stop was requested and gives the state.
pub proof fn stopped_only_when_stopped(state: u32)
    ensures
        state == SERVICE_STOPPED ==> stop_report_text(state) == "Service stopped: "@
            + DISPLAY_NAME@,
        state != SERVICE_STOPPED ==> stop_report_text(state)
            == "Service stop requested, current state: "@ + decimal(state as nat),
        "Service stopped: "@ + DISPLAY_NAME@ != "Service stop requested, current state: "@
            + decimal(state as nat),
{
    reveal_strlit("Service stopped: ");
    reveal_strlit("IME Shift Fix");
    reveal_strlit("Service stop requested, current state: ");
    let a = "Service stopped: "@ + DISPLAY_NAME@;
    let b = "Service stop requested, current state: "@ + decimal(state as nat);
    assert(a[12] == 'p');
    assert(b[12] == ' ');
}

/// A command line holds the program path character for character between
/// two double quotes, then one space, then the option, and nothing else.
pub proof fn command_line_keeps_path(exe: Seq<char>, option: Seq<char>)
    ensures
        ({
            let line = command_line_text(exe, option);
            &&& line.len() == exe.len() + option.len() + 3
            &&& line[0] == '"'
            &&& line.subrange(1, exe.len() + 1int) == exe
            &&& line[exe.len() + 1int] == '"'
            &&& line[exe.len() + 2int] == ' '
            &&& line.subrange(exe.len() + 3int, line.len() as int) == option
        }),
{
    reveal_strlit("\"");
    reveal_strlit("\" ");
    let line = command_line_text(exe, option);
    assert(line.subrange(1, exe.len() + 1int) =~= exe);
    assert(line.subrange(exe.len() + 3int, line.len() as int) =~= option);
}

} // verus!
