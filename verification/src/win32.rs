//! Win32 values the decisions compare against, and error-code arithmetic.

use vstd::prelude::*;

verus! {

/// `WM_KEYDOWN`: a non-system key was pressed.
pub const WM_KEYDOWN: u32 = 0x0100;

/// `WM_KEYUP`: a non-system key was released.
pub const WM_KEYUP: u32 = 0x0101;

/// `WM_SYSKEYUP`: a key was released while Alt was held.
pub const WM_SYSKEYUP: u32 = 0x0105;

/// `WM_LBUTTONDOWN`: the left mouse button was pressed.
pub const WM_LBUTTONDOWN: u32 = 0x0201;

/// `WM_MOUSEWHEEL`: the vertical wheel was rotated.
pub const WM_MOUSEWHEEL: u32 = 0x020A;

/// `WM_MOUSEHWHEEL`: the horizontal wheel was rotated.
pub const WM_MOUSEHWHEEL: u32 = 0x020E;

/// Virtual-key code of the left Shift key.
pub const VK_LSHIFT: u32 = 0xA0;

/// Virtual-key code of the right Shift key.
pub const VK_RSHIFT: u32 = 0xA1;

/// `KEYEVENTF_KEYUP`: the injected keyboard input is a release.
pub const KEYEVENTF_KEYUP: u32 = 0x0002;

/// `SERVICE_STOPPED` service state.
pub const SERVICE_STOPPED: u32 = 1;

/// `SERVICE_START_PENDING` service state.
pub const SERVICE_START_PENDING: u32 = 2;

/// `SERVICE_STOP_PENDING` service state.
pub const SERVICE_STOP_PENDING: u32 = 3;

/// `SERVICE_RUNNING` service state.
pub const SERVICE_RUNNING: u32 = 4;

/// `SERVICE_ACCEPT_STOP`: the service can be stopped.
pub const SERVICE_ACCEPT_STOP: u32 = 1;

/// `SERVICE_CONTROL_STOP`: the control code that asks a service to stop.
pub const SERVICE_CONTROL_STOP: u32 = 1;

/// `SERVICE_WIN32_OWN_PROCESS`: the service runs in a process of its own.
pub const SERVICE_WIN32_OWN_PROCESS: u32 = 0x10;

/// Win32 error `ERROR_SERVICE_ALREADY_RUNNING`.
pub const ERROR_SERVICE_ALREADY_RUNNING: u32 = 1056;

/// Win32 error `ERROR_SERVICE_DOES_NOT_EXIST`.
pub const ERROR_SERVICE_DOES_NOT_EXIST: u32 = 1060;

/// Win32 error `ERROR_SERVICE_NOT_ACTIVE`.
pub const ERROR_SERVICE_NOT_ACTIVE: u32 = 1062;

/// The `HRESULT` that stands for a Win32 error code, as a signed 32-bit value:
/// codes whose signed reading is not positive are kept as they are; any other
/// code keeps its low 16 bits under the severity bit and facility 7 (`FACILITY_WIN32`).
pub open spec fn win32_to_hresult(code: u32) -> int {
    if code == 0 {
        0
    } else if code <= 0x7FFF_FFFF {
        0x8007_0000 + code % 0x1_0000 - 0x1_0000_0000
    } else {
        code - 0x1_0000_0000
    }
}

/// The `HRESULT` value `E_FAIL` (`0x80004005`), read as a signed 32-bit value.
pub const E_FAIL: i32 = -0x7FFF_BFFB;

/// A Win32 failure code in 1..=0x7FFF_FFFF becomes a failure `HRESULT`
/// (negative) of facility 7 whose low 16 bits are the code's; 0 stays 0, and a
/// code whose signed reading is negative is read as that signed value.
pub proof fn win32_hresult_shape(code: u32)
    ensures
        code == 0 ==> win32_to_hresult(code) == 0,
        0 < code <= 0x7FFF_FFFF ==> ({
            let bits = win32_to_hresult(code) + 0x1_0000_0000;
            &&& win32_to_hresult(code) < 0
            &&& bits / 0x1_0000 == 0x8007
            &&& bits % 0x1_0000 == code % 0x1_0000
        }),
        code > 0x7FFF_FFFF ==> win32_to_hresult(code) == code - 0x1_0000_0000,
        i32::MIN <= win32_to_hresult(code) <= i32::MAX,
{
}

/// Calls `windows_core::HRESULT::from_win32` (the type that the `windows`
/// crate re-exports as `windows::core::HRESULT`). Its source maps a code whose
/// signed reading is not positive to itself and any other code to
/// `(code & 0xFFFF) | (7 << 16) | 0x8000_0000`, read as `i32`; the contract
/// states that arithmetic.
#[verifier::external_body]
fn hresult_from_win32(code: u32) -> (hresult: i32)
    ensures
        hresult == win32_to_hresult(code),
{
    windows_core::HRESULT::from_win32(code).0
}

/// Whether a failure with `HRESULT` `hresult` is the Win32 error `code`.
pub fn is_win32_error(hresult: i32, code: u32) -> (is_it: bool)
    ensures
        is_it == (hresult == win32_to_hresult(code)),
{
    hresult == hresult_from_win32(code)
}

/// The `HRESULT` of an I/O failure: the Win32 code the operating system
/// reported, if any, mapped to an `HRESULT`; `E_FAIL` when there is none.
pub fn hresult_from_io(raw_os_error: Option<i32>) -> (hresult: i32)
    ensures
        hresult == match raw_os_error {
            Some(code) => win32_to_hresult(code as u32),
            None => E_FAIL as int,
        },
{
    match raw_os_error {
        Some(code) => hresult_from_win32(code as u32),
        None => E_FAIL,
    }
}

} // verus!
