use windows_sys::Win32::Foundation as f;
use win_api_wrapper::base::error::Code;
use win_api_wrapper::calls::{
    check_bool, check_bool_query, check_enumeration, check_hresult, check_ntstatus,
    check_optional, check_win32, check_win32_enumeration, check_win32_size, ERROR_MORE_DATA,
    ERROR_NO_MORE_FILES, ERROR_NO_MORE_ITEMS,
};

#[test]
fn bool_calls() {
    assert_eq!(check_bool(true, 5, 7u32), Ok(7));
    assert_eq!(check_bool(false, 5, 7u32), Err(Code::Win32(5)));
    assert_eq!(check_bool(false, 0, ()), Err(Code::Win32(0)));
}

#[test]
fn bool_queries() {
    assert_eq!(check_bool_query(1, 5), Ok(true));
    assert_eq!(check_bool_query(-1, 0), Ok(true));
    assert_eq!(check_bool_query(0, 0), Ok(false));
    assert_eq!(check_bool_query(0, 6), Err(Code::Win32(6)));
}

#[test]
fn optional_calls() {
    assert_eq!(check_optional(true, 5, 3isize), Ok(Some(3)));
    assert_eq!(check_optional(false, 0, 3isize), Ok(None));
    assert_eq!(check_optional(false, 1400, 3isize), Err(Code::Win32(1400)));
}

#[test]
fn enumerations() {
    assert_eq!(check_enumeration(true, 0, ERROR_NO_MORE_FILES, 1u8), Ok(Some(1)));
    assert_eq!(check_enumeration(false, 18, ERROR_NO_MORE_FILES, 1u8), Ok(None));
    assert_eq!(check_enumeration(false, 6, ERROR_NO_MORE_FILES, 1u8), Err(Code::Win32(6)));
    assert_eq!(check_win32_enumeration(0, ERROR_NO_MORE_ITEMS, 'a'), Ok(Some('a')));
    assert_eq!(check_win32_enumeration(259, ERROR_NO_MORE_ITEMS, 'a'), Ok(None));
    assert_eq!(check_win32_enumeration(2, ERROR_NO_MORE_ITEMS, 'a'), Err(Code::Win32(2)));
}

#[test]
fn status_calls() {
    assert_eq!(check_win32(0, "x"), Ok("x"));
    assert_eq!(check_win32(2, "x"), Err(Code::Win32(2)));
    assert_eq!(check_win32_size(0, 10), Ok(10));
    assert_eq!(check_win32_size(ERROR_MORE_DATA, 12), Ok(12));
    assert_eq!(check_win32_size(2, 12), Err(Code::Win32(2)));
    assert_eq!(check_hresult(0, 1), Ok(1));
    assert_eq!(check_hresult(1, 1), Ok(1));
    assert_eq!(check_hresult(-2147024891, 1), Err(Code::HResult(-2147024891)));
    assert_eq!(check_ntstatus(0, 1), Ok(1));
    assert_eq!(check_ntstatus(-1073741823, 1), Err(Code::NtStatus(-1073741823)));
}

#[test]
fn error_constants_match_windows() {
    assert_eq!(win_api_wrapper::calls::ERROR_SUCCESS, f::ERROR_SUCCESS);
    assert_eq!(ERROR_NO_MORE_FILES, f::ERROR_NO_MORE_FILES);
    assert_eq!(ERROR_MORE_DATA, f::ERROR_MORE_DATA);
    assert_eq!(ERROR_NO_MORE_ITEMS, f::ERROR_NO_MORE_ITEMS);
    assert_eq!(win_api_wrapper::calls::ERROR_INSUFFICIENT_BUFFER, f::ERROR_INSUFFICIENT_BUFFER);
}
