/// `Win32::System::Threading::Process`
pub mod process;
/// `Win32::System::Threading::Thread`
pub mod thread;

use vstd::prelude::*;

verus! {

/// `STILL_ACTIVE`: the exit code that a process or thread reports while it is running.
pub const STILL_ACTIVE: u32 = 259;

/// What an exit code reports: `None` while the process or thread is still running
/// (`STILL_ACTIVE`), the code it exited with otherwise.
pub open spec fn exit_status(exit_code: u32) -> Option<u32> {
    if exit_code == STILL_ACTIVE {
        None
    } else {
        Some(exit_code)
    }
}

/// Decides what `get_exit_code` returns from the exit code that the system reported.
pub fn exit_code_status(exit_code: u32) -> (status: Option<u32>)
    ensures
        status == exit_status(exit_code),
{
    if exit_code != STILL_ACTIVE {
        Some(exit_code)
    } else {
        None
    }
}

/// Decides what `is_running` returns from the exit code that the system reported.
pub fn is_still_active(exit_code: u32) -> (running: bool)
    ensures
        running == (exit_code == STILL_ACTIVE),
{
    exit_code == STILL_ACTIVE
}

/// A process or thread is running exactly when it has no exit code yet, and an exit code
/// that is reported keeps its value.
pub proof fn lemma_running_iff_no_exit_code(exit_code: u32)
    ensures
        (exit_code == STILL_ACTIVE) <==> exit_status(exit_code) is None,
        exit_status(exit_code) matches Some(code) ==> code == exit_code,
{
}

} // verus!
