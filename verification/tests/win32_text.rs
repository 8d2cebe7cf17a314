use ime_shift_fix::text::{push_decimal, to_wide};
use ime_shift_fix::win32::{
    hresult_from_io, is_win32_error, E_FAIL, ERROR_SERVICE_ALREADY_RUNNING,
    ERROR_SERVICE_DOES_NOT_EXIST, ERROR_SERVICE_NOT_ACTIVE,
};

#[test]
fn win32_code_maps_to_facility_win32_hresult() {
    assert_eq!(hresult_from_io(Some(1060)), 0x8007_0424u32 as i32);
    assert_eq!(hresult_from_io(Some(5)), 0x8007_0005u32 as i32);
    assert_eq!(hresult_from_io(Some(0x0001_2345)), 0x8007_2345u32 as i32);
}

#[test]
fn zero_and_negative_codes_map_to_themselves() {
    assert_eq!(hresult_from_io(Some(0)), 0);
    assert_eq!(hresult_from_io(Some(-5)), -5);
    assert_eq!(hresult_from_io(Some(i32::MIN)), i32::MIN);
}

#[test]
fn io_error_without_os_code_is_e_fail() {
    assert_eq!(hresult_from_io(None), E_FAIL);
    assert_eq!(E_FAIL, 0x8000_4005u32 as i32);
}

#[test]
fn win32_error_recognised_by_its_hresult() {
    let hr = windows_core::HRESULT::from_win32(ERROR_SERVICE_DOES_NOT_EXIST).0;
    assert!(is_win32_error(hr, ERROR_SERVICE_DOES_NOT_EXIST));
    assert!(!is_win32_error(hr, ERROR_SERVICE_NOT_ACTIVE));
    assert!(is_win32_error(0x8007_0420u32 as i32, ERROR_SERVICE_ALREADY_RUNNING));
    assert!(!is_win32_error(1060, ERROR_SERVICE_DOES_NOT_EXIST));
}

#[test]
fn to_wide_appends_terminator() {
    assert_eq!(to_wide(""), vec![0u16]);
    assert_eq!(to_wide("runas"), vec![114, 117, 110, 97, 115, 0]);
}

#[test]
fn to_wide_encodes_like_std() {
    for s in ["winsta0\\default", "\"C:\\Program Files\\x.exe\" --user", "日本語", "a😀b", "\u{FFFF}\u{10000}\u{10FFFF}"] {
        let expected: Vec<u16> = s.encode_utf16().chain(Some(0)).collect();
        assert_eq!(to_wide(s), expected);
    }
}

#[test]
fn to_wide_surrogate_pair() {
    assert_eq!(to_wide("😀"), vec![0xD83D, 0xDE00, 0]);
}

#[test]
fn to_wide_terminator_is_only_zero() {
    let w = to_wide("IME Shift Fix");
    assert_eq!(w.iter().filter(|u| **u == 0).count(), 1);
    assert_eq!(*w.last().unwrap(), 0);
}

#[test]
fn decimal_numerals() {
    for n in [0u64, 7, 10, 1056, 4294967295, u64::MAX] {
        let mut s = String::from("x=");
        push_decimal(&mut s, n);
        assert_eq!(s, format!("x={}", n));
    }
}
