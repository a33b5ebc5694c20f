use crate::base::error::Code;
use vstd::prelude::*;

verus! {

/// `ERROR_SUCCESS`: the operation completed successfully.
pub const ERROR_SUCCESS: u32 = 0;

/// `ERROR_NO_MORE_FILES`: there are no more files (ends a snapshot walk).
pub const ERROR_NO_MORE_FILES: u32 = 18;

/// `ERROR_INSUFFICIENT_BUFFER`: the data area passed to a system call is too small.
pub const ERROR_INSUFFICIENT_BUFFER: u32 = 122;

/// `ERROR_MORE_DATA`: more data is available (the buffer was only measured).
pub const ERROR_MORE_DATA: u32 = 234;

/// `ERROR_NO_MORE_ITEMS`: no more data is available (ends an enumeration).
pub const ERROR_NO_MORE_ITEMS: u32 = 259;

// ---------------------------------------------------------------------------
// Models
// ---------------------------------------------------------------------------

/// A call that reports success with a flag (a nonzero `BOOL`, a handle that is not null,
/// a count that is not the failure value) and its failure through the last Win32 error.
pub open spec fn bool_outcome<T>(succeeded: bool, last_error: u32, value: T) -> Result<T, Code> {
    if succeeded {
        Ok(value)
    } else {
        Err(Code::Win32(last_error))
    }
}

/// A `BOOL` call whose `FALSE` is an answer rather than a failure when the last error
/// is `ERROR_SUCCESS`.
pub open spec fn bool_query_outcome(result: i32, last_error: u32) -> Result<bool, Code> {
    if result != 0 {
        Ok(true)
    } else if last_error == ERROR_SUCCESS {
        Ok(false)
    } else {
        Err(Code::Win32(last_error))
    }
}

/// A call that finds something or nothing: not finding it is `None` when the last error
/// is `ERROR_SUCCESS`, and a failure otherwise.
pub open spec fn optional_outcome<T>(found: bool, last_error: u32, value: T) -> Result<
    Option<T>,
    Code,
> {
    if found {
        Ok(Some(value))
    } else if last_error == ERROR_SUCCESS {
        Ok(None)
    } else {
        Err(Code::Win32(last_error))
    }
}

/// One step of an enumeration by a flag-reporting call: the last error `end_code` means
/// that there are no more items.
pub open spec fn enumeration_outcome<T>(
    succeeded: bool,
    last_error: u32,
    end_code: u32,
    value: T,
) -> Result<Option<T>, Code> {
    if succeeded {
        Ok(Some(value))
    } else if last_error == end_code {
        Ok(None)
    } else {
        Err(Code::Win32(last_error))
    }
}

/// A call that returns a `WIN32_ERROR` status.
pub open spec fn win32_outcome<T>(status: u32, value: T) -> Result<T, Code> {
    if status == ERROR_SUCCESS {
        Ok(value)
    } else {
        Err(Code::Win32(status))
    }
}

/// One step of an enumeration by a status-returning call: `end_code` means that there
/// are no more items.
pub open spec fn win32_enumeration_outcome<T>(status: u32, end_code: u32, value: T) -> Result<
    Option<T>,
    Code,
> {
    if status == ERROR_SUCCESS {
        Ok(Some(value))
    } else if status == end_code {
        Ok(None)
    } else {
        Err(Code::Win32(status))
    }
}

/// A status-returning call that measures a buffer: `ERROR_MORE_DATA` reports the size
/// just as success does.
pub open spec fn win32_size_outcome(status: u32, size: u32) -> Result<u32, Code> {
    if status == ERROR_SUCCESS || status == ERROR_MORE_DATA {
        Ok(size)
    } else {
        Err(Code::Win32(status))
    }
}

/// A call that returns an `HRESULT`: negative values are failures.
pub open spec fn hresult_outcome<T>(hresult: i32, value: T) -> Result<T, Code> {
    if hresult < 0 {
        Err(Code::HResult(hresult))
    } else {
        Ok(value)
    }
}

/// A call that returns an `NTSTATUS`: any status but `STATUS_SUCCESS` is a failure.
pub open spec fn ntstatus_outcome<T>(status: i32, value: T) -> Result<T, Code> {
    if status == 0 {
        Ok(value)
    } else {
        Err(Code::NtStatus(status))
    }
}

// ---------------------------------------------------------------------------
// Decisions
// ---------------------------------------------------------------------------

/// Decides the result of a call that reports success with a flag: `value` when it
/// succeeded, the last Win32 error otherwise.
pub fn check_bool<T>(succeeded: bool, last_error: u32, value: T) -> (result: Result<T, Code>)
    ensures
        result == bool_outcome(succeeded, last_error, value),
{
    if succeeded {
        Ok(value)
    } else {
        Err(Code::from_win32(last_error))
    }
}

/// Decides the result of a `BOOL` call whose `FALSE` is an answer when the last error is
/// `ERROR_SUCCESS`.
pub fn check_bool_query(result: i32, last_error: u32) -> (outcome: Result<bool, Code>)
    ensures
        outcome == bool_query_outcome(result, last_error),
{
    if result != 0 {
        Ok(true)
    } else {
        let error = Code::from_win32(last_error);
        if error.is_ok() {
            Ok(false)
        } else {
            Err(error)
        }
    }
}

/// Decides the result of a call that finds something or nothing.
pub fn check_optional<T>(found: bool, last_error: u32, value: T) -> (result: Result<
    Option<T>,
    Code,
>)
    ensures
        result == optional_outcome(found, last_error, value),
{
    if found {
        Ok(Some(value))
    } else {
        let error = Code::from_win32(last_error);
        if error.is_ok() {
            Ok(None)
        } else {
            Err(error)
        }
    }
}

/// Decides one step of an enumeration by a flag-reporting call.
pub fn check_enumeration<T>(succeeded: bool, last_error: u32, end_code: u32, value: T) -> (result:
    Result<Option<T>, Code>)
    ensures
        result == enumeration_outcome(succeeded, last_error, end_code, value),
{
    if succeeded {
        Ok(Some(value))
    } else if last_error == end_code {
        Ok(None)
    } else {
        Err(Code::from_win32(last_error))
    }
}

/// Decides the result of a call that returns a `WIN32_ERROR` status.
pub fn check_win32<T>(status: u32, value: T) -> (result: Result<T, Code>)
    ensures
        result == win32_outcome(status, value),
{
    if status == ERROR_SUCCESS {
        Ok(value)
    } else {
        Err(Code::from_win32(status))
    }
}

/// Decides one step of an enumeration by a status-returning call.
pub fn check_win32_enumeration<T>(status: u32, end_code: u32, value: T) -> (result: Result<
    Option<T>,
    Code,
>)
    ensures
        result == win32_enumeration_outcome(status, end_code, value),
{
    if status == ERROR_SUCCESS {
        Ok(Some(value))
    } else if status == end_code {
        Ok(None)
    } else {
        Err(Code::from_win32(status))
    }
}

/// Decides the result of a status-returning call that measures a buffer.
pub fn check_win32_size(status: u32, size: u32) -> (result: Result<u32, Code>)
    ensures
        result == win32_size_outcome(status, size),
{
    if status != ERROR_MORE_DATA && status != ERROR_SUCCESS {
        Err(Code::from_win32(status))
    } else {
        Ok(size)
    }
}

/// Decides the result of a call that returns an `HRESULT`.
pub fn check_hresult<T>(hresult: i32, value: T) -> (result: Result<T, Code>)
    ensures
        result == hresult_outcome(hresult, value),
{
    if hresult < 0 {
        Err(Code::from_hresult(hresult))
    } else {
        Ok(value)
    }
}

/// Decides the result of a call that returns an `NTSTATUS`.
pub fn check_ntstatus<T>(status: i32, value: T) -> (result: Result<T, Code>)
    ensures
        result == ntstatus_outcome(status, value),
{
    let code = Code::from_nt(status);
    if code.is_ok() {
        Ok(value)
    } else {
        Err(code)
    }
}

// ---------------------------------------------------------------------------
// Laws
// ---------------------------------------------------------------------------

/// A status-returning call (`WIN32_ERROR`, `HRESULT`, `NTSTATUS`) succeeds exactly when
/// its status, read as a [`Code`], reports success; when it fails, the error is that code.
pub proof fn lemma_status_results_follow_codes<T>(status: u32, hresult: i32, nt_status: i32, value: T)
    ensures
        win32_outcome(status, value) is Ok <==> Code::Win32(status).succeeds(),
        !Code::Win32(status).succeeds() ==> win32_outcome(status, value) == Err::<T, Code>(
            Code::Win32(status),
        ),
        hresult_outcome(hresult, value) is Ok <==> Code::HResult(hresult).succeeds(),
        !Code::HResult(hresult).succeeds() ==> hresult_outcome(hresult, value) == Err::<T, Code>(
            Code::HResult(hresult),
        ),
        ntstatus_outcome(nt_status, value) is Ok <==> Code::NtStatus(nt_status).succeeds(),
        !Code::NtStatus(nt_status).succeeds() ==> ntstatus_outcome(nt_status, value) == Err::<
            T,
            Code,
        >(Code::NtStatus(nt_status)),
{
}

/// Whenever a call's decision is an error, that error reports failure, provided that a
/// failing flag-reporting call left a nonzero last error.
pub proof fn lemma_errors_report_failure<T>(
    succeeded: bool,
    result: i32,
    last_error: u32,
    end_code: u32,
    status: u32,
    size: u32,
    value: T,
)
    requires
        last_error != ERROR_SUCCESS,
    ensures
        bool_outcome(succeeded, last_error, value) matches Err(code) ==> !code.succeeds(),
        bool_query_outcome(result, last_error) matches Err(code) ==> !code.succeeds(),
        optional_outcome(succeeded, last_error, value) matches Err(code) ==> !code.succeeds(),
        enumeration_outcome(succeeded, last_error, end_code, value) matches Err(code)
            ==> !code.succeeds(),
        win32_outcome(status, value) matches Err(code) ==> !code.succeeds(),
        win32_enumeration_outcome(status, end_code, value) matches Err(code) ==> !code.succeeds(),
        win32_size_outcome(status, size) matches Err(code) ==> !code.succeeds(),
{
}

/// An enumeration ends (`Ok(None)`) only on its end code, and a measurement succeeds
/// exactly on `ERROR_SUCCESS` or `ERROR_MORE_DATA`.
pub proof fn lemma_enumerations_end_on_end_code<T>(
    succeeded: bool,
    last_error: u32,
    end_code: u32,
    status: u32,
    size: u32,
    value: T,
)
    ensures
        enumeration_outcome(succeeded, last_error, end_code, value) == Ok::<Option<T>, Code>(None)
            <==> (!succeeded && last_error == end_code),
        end_code != ERROR_SUCCESS ==> (win32_enumeration_outcome(status, end_code, value) == Ok::<
            Option<T>,
            Code,
        >(None) <==> status == end_code),
        win32_size_outcome(status, size) is Ok <==> (status == ERROR_SUCCESS || status
            == ERROR_MORE_DATA),
{
}

/// A flag-reporting call that succeeded gives its value whatever the last error holds (a
/// stale code left by an earlier call changes nothing); one that failed gives the last
/// error as a Win32 code, except where that error is the answer itself: `ERROR_SUCCESS`
/// for a query or a search, the end code for an enumeration.
pub proof fn lemma_flag_calls_read_last_error_only_on_failure<T>(
    succeeded: bool,
    result: i32,
    last_error: u32,
    end_code: u32,
    value: T,
)
    ensures
        succeeded ==> bool_outcome(succeeded, last_error, value) == Ok::<T, Code>(value),
        !succeeded ==> bool_outcome(succeeded, last_error, value) == Err::<T, Code>(
            Code::Win32(last_error),
        ),
        result != 0 ==> bool_query_outcome(result, last_error) == Ok::<bool, Code>(true),
        result == 0 && last_error == ERROR_SUCCESS ==> bool_query_outcome(result, last_error)
            == Ok::<bool, Code>(false),
        result == 0 && last_error != ERROR_SUCCESS ==> bool_query_outcome(result, last_error)
            == Err::<bool, Code>(Code::Win32(last_error)),
        succeeded ==> optional_outcome(succeeded, last_error, value) == Ok::<Option<T>, Code>(
            Some(value),
        ),
        !succeeded && last_error == ERROR_SUCCESS ==> optional_outcome(
            succeeded,
            last_error,
            value,
        ) == Ok::<Option<T>, Code>(None),
        !succeeded && last_error != ERROR_SUCCESS ==> optional_outcome(
            succeeded,
            last_error,
            value,
        ) == Err::<Option<T>, Code>(Code::Win32(last_error)),
        succeeded ==> enumeration_outcome(succeeded, last_error, end_code, value) == Ok::<
            Option<T>,
            Code,
        >(Some(value)),
        !succeeded && last_error == end_code ==> enumeration_outcome(
            succeeded,
            last_error,
            end_code,
            value,
        ) == Ok::<Option<T>, Code>(None),
        !succeeded && last_error != end_code ==> enumeration_outcome(
            succeeded,
            last_error,
            end_code,
            value,
        ) == Err::<Option<T>, Code>(Code::Win32(last_error)),
{
}

/// A step of a status-returning enumeration gives an item exactly when the status is
/// `ERROR_SUCCESS`, and then the value it was handed; the end code (when it is not
/// `ERROR_SUCCESS`) ends the enumeration, and every other status, `ERROR_MORE_DATA`
/// included, is an error carrying that status.
pub proof fn lemma_status_enumeration_steps<T>(status: u32, end_code: u32, value: T)
    ensures
        win32_enumeration_outcome(status, end_code, value) matches Ok(Some(item)) <==> status
            == ERROR_SUCCESS,
        win32_enumeration_outcome(status, end_code, value) matches Ok(Some(item)) ==> item
            == value,
        status != ERROR_SUCCESS && status == end_code ==> win32_enumeration_outcome(
            status,
            end_code,
            value,
        ) == Ok::<Option<T>, Code>(None),
        status != ERROR_SUCCESS && status != end_code ==> win32_enumeration_outcome(
            status,
            end_code,
            value,
        ) == Err::<Option<T>, Code>(Code::Win32(status)),
        end_code != ERROR_MORE_DATA ==> win32_enumeration_outcome(ERROR_MORE_DATA, end_code, value)
            == Err::<Option<T>, Code>(Code::Win32(ERROR_MORE_DATA)),
{
}

} // verus!
