use crate::base::error::Code;
use crate::calls::{optional_outcome, ERROR_SUCCESS};
use vstd::prelude::*;

verus! {

/// Decides the length of a window title from what `GetWindowTextLengthW` or
/// `GetWindowTextW` returned and the last error, set to `ERROR_SUCCESS` before the call:
/// a length of `0` is an empty title unless an error was reported.
pub fn text_length_result(len: i32, last_error: u32) -> (result: Result<i32, Code>)
    ensures
        result == match optional_outcome(len != 0, last_error, len) {
            Ok(Some(found)) => Ok::<i32, Code>(found),
            Ok(None) => Ok(0),
            Err(code) => Err(code),
        },
        result is Ok <==> (len != 0 || last_error == ERROR_SUCCESS),
{
    if len != 0 {
        Ok(len)
    } else if last_error == ERROR_SUCCESS {
        Ok(0)
    } else {
        Err(Code::from_win32(last_error))
    }
}

} // verus!
