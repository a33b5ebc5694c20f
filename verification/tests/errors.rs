use win_api_wrapper::base::error::{Code, Error};
use win_api_wrapper::win32::result::Win32Error;

#[test]
fn code_success_conventions() {
    assert!(Code::from_win32(0).is_ok());
    assert!(Code::from_win32(5).is_error());
    assert!(Code::from_hresult(0).is_ok());
    assert!(Code::from_hresult(1).is_ok());
    assert!(Code::from_hresult(-2147024891).is_error());
    assert!(Code::from_nt(0).is_ok());
    assert!(Code::from_nt(1).is_error());
    assert!(Code::from_nt(-1073741823).is_error());
}

#[test]
fn code_readings() {
    let code = Code::from_hresult(-2147024891);
    assert_eq!(code.as_i32(), -2147024891);
    assert_eq!(code.as_u32(), 0x80070005);
    let code = Code::from_win32(0xFFFF_FFFF);
    assert_eq!(code.as_i32(), -1);
    assert_eq!(code.as_u32(), 0xFFFF_FFFF);
    assert_eq!(Code::from_nt(-1).as_u32(), 0xFFFF_FFFF);
}

#[test]
fn code_kinds() {
    assert!(Code::from_hresult(1).is_hresult());
    assert!(!Code::from_hresult(1).is_nt());
    assert!(Code::from_nt(1).is_nt());
    assert!(!Code::from_nt(1).is_win32());
    assert!(Code::from_win32(1).is_win32());
    assert!(!Code::from_win32(1).is_hresult());
}

#[test]
fn code_text() {
    assert_eq!(Code::from_hresult(-2147024891).to_string(), "0x80070005");
    assert_eq!(Code::from_win32(5).to_string(), "0x00000005");
    assert_eq!(Code::from_nt(0).to_string(), "0x00000000");
    assert_eq!(Code::from_win32(0xABCDEF12).to_string(), "0xabcdef12");
    assert_eq!(Code::from_hresult(-2147024891).to_debug_string(), "HRESULT(0x80070005)");
    assert_eq!(Code::from_nt(-1073741819).to_debug_string(), "NTSTATUS(0xc0000005)");
    assert_eq!(Code::from_win32(2).to_debug_string(), "WIN32_ERROR(0x00000002)");
}

#[test]
fn code_text_matches_std_formatting() {
    for value in [0i32, 1, 5, -1, i32::MIN, i32::MAX, 0x1234abcd, -2147024891] {
        assert_eq!(Code::from_hresult(value).to_string(), format!("{:#010x}", value));
    }
}

#[test]
fn error_from_code_with_system_message() {
    let error = Error::from_code(Code::from_win32(5), Some(String::from("Access is denied.")));
    assert_eq!(error.code(), 5);
    assert_eq!(error.message(), "Access is denied.");
    assert!(error.is_failure());
    assert!(!error.is_success());
    assert_eq!(error.kind(), Code::Win32(5));
    assert_eq!(error.to_string(), "WIN32_ERROR: Access is denied. (0x00000005)");
}

#[test]
fn error_from_code_without_system_message() {
    let error = Error::from_code(Code::from_hresult(-2147467259), None);
    assert_eq!(error.message(), Error::FORMAT_MESSAGE_ERROR_MESSAGE);
    assert_eq!(error.message(), "Failed to retrieve the error message from the system!");
    assert_eq!(error.code(), -2147467259);
    assert_eq!(
        error.to_string(),
        "HRESULT: Failed to retrieve the error message from the system! (0x80004005)"
    );
    let error = Error::from_code(Code::from_nt(-1073741790), None);
    assert_eq!(error.message(), Error::FORMAT_MESSAGE_ERROR_MESSAGE);
    let error = Error::new(Code::from_nt(0), String::from("ok"));
    assert!(error.is_success());
    assert_eq!(error.to_string(), "NTSTATUS: ok (0x00000000)");
}

#[test]
fn error_last_win32() {
    let error = Error::last_win32(2, None);
    assert_eq!(error.kind(), Code::Win32(2));
    assert_eq!(error.message(), Error::FORMAT_MESSAGE_ERROR_MESSAGE);
}

#[test]
fn win32_error() {
    let error = Win32Error::from_code(5, Some(String::from("Access is denied.")));
    assert_eq!(error.code(), 5);
    assert_eq!(error.message(), "Access is denied.");
    assert!(error.is_failure());
    assert!(!error.is_success());
    assert_eq!(error.to_string(), "Win32Error: 5 -> Access is denied.");
}

#[test]
fn win32_error_without_message() {
    let error = Win32Error::get_last(1234567890, None);
    assert_eq!(error.code(), 1234567890);
    assert_eq!(error.message(), Win32Error::FORMAT_MESSAGE_ERROR_MESSAGE);
    assert_eq!(error.message(), "Failed to retrieve the error message!");
    assert_eq!(
        error.to_string(),
        "Win32Error: 1234567890 -> Failed to retrieve the error message!"
    );
    let success = Win32Error::from_code(0, None);
    assert!(success.is_success());
    assert_eq!(success.to_string(), "Win32Error: 0 -> Failed to retrieve the error message!");
}

#[test]
fn error_message_constant() {
    assert_eq!(
        Error::FORMAT_MESSAGE_ERROR_MESSAGE,
        "Failed to retrieve the error message from the system!"
    );
}
