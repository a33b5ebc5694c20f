use vstd::prelude::*;

verus! {

/// A buffer length that holds the identifiers of the processes of most systems.
pub const RECOMMENDED_INITIAL_PID_BUFFER_LENGTH: usize = 1024;

/// The length at which `get_pids` stops growing its buffer.
pub const MAX_PID_BUFFER_LEN: usize = 0x8000_0000;

/// What `get_pids` does next.
#[derive(Debug, Copy, Clone, PartialEq, Eq, Structural)]
pub enum PidBufferStep {
    /// Enumerate the processes into a buffer of this many identifiers.
    Call(usize),
    /// Return this many identifiers from the buffer.
    Done(usize),
}

/// The buffer length of the first enumeration call of `get_pids` for a requested length
/// of `initial_len` identifiers.
pub open spec fn first_pid_buffer_len(initial_len: usize) -> usize {
    if initial_len == 0 {
        1
    } else if initial_len > MAX_PID_BUFFER_LEN {
        MAX_PID_BUFFER_LEN
    } else {
        initial_len
    }
}

/// The first step of `get_pids` for a requested buffer of `initial_len` identifiers: a
/// call with that buffer, where a length above [`MAX_PID_BUFFER_LEN`] is replaced by the
/// limit and an empty buffer by one of a single identifier, from which the buffer can grow.
pub fn first_pid_buffer_step(initial_len: usize) -> (step: PidBufferStep)
    ensures
        step == PidBufferStep::Call(first_pid_buffer_len(initial_len)),
{
    if initial_len == 0 {
        PidBufferStep::Call(1)
    } else if initial_len > MAX_PID_BUFFER_LEN {
        PidBufferStep::Call(MAX_PID_BUFFER_LEN)
    } else {
        PidBufferStep::Call(initial_len)
    }
}

/// The step of `get_pids` after the system wrote `bytes_written` bytes of identifiers into
/// a buffer of `buffer_len` identifiers: done when the buffer was not filled; otherwise,
/// below the limit, again with a buffer twice as long (at most [`MAX_PID_BUFFER_LEN`]);
/// at the limit the full buffer is returned.
pub open spec fn pid_step_after(buffer_len: usize, bytes_written: u32) -> PidBufferStep {
    let count = bytes_written / 4;
    if count < buffer_len {
        PidBufferStep::Done(count as usize)
    } else if buffer_len < MAX_PID_BUFFER_LEN {
        PidBufferStep::Call(
            if 2 * buffer_len < MAX_PID_BUFFER_LEN {
                (2 * buffer_len) as usize
            } else {
                MAX_PID_BUFFER_LEN
            },
        )
    } else {
        PidBufferStep::Done(buffer_len)
    }
}

/// Decides the step of `get_pids` after an enumeration call (see [`pid_step_after`]).
pub fn next_pid_buffer_step(buffer_len: usize, bytes_written: u32) -> (step: PidBufferStep)
    requires
        0 < buffer_len <= MAX_PID_BUFFER_LEN,
    ensures
        step == pid_step_after(buffer_len, bytes_written),
{
    let count = (bytes_written / 4) as usize;
    if count < buffer_len {
        PidBufferStep::Done(count)
    } else if buffer_len < MAX_PID_BUFFER_LEN {
        let grown = buffer_len * 2;
        if grown < MAX_PID_BUFFER_LEN {
            PidBufferStep::Call(grown)
        } else {
            PidBufferStep::Call(MAX_PID_BUFFER_LEN)
        }
    } else {
        PidBufferStep::Done(buffer_len)
    }
}

/// `get_pids` always makes a first call, with a buffer of at least one identifier and at
/// most the limit; every further call uses a longer buffer, twice as long or the limit, and
/// none comes after a call at the limit, so the enumeration ends after finitely many calls.
/// The identifiers it returns are never more than the system reported nor more than the
/// last buffer holds.
pub proof fn lemma_pid_buffer_progress(initial_len: usize, buffer_len: usize, bytes_written: u32)
    requires
        0 < buffer_len <= MAX_PID_BUFFER_LEN,
    ensures
        0 < first_pid_buffer_len(initial_len) <= MAX_PID_BUFFER_LEN,
        0 < initial_len <= MAX_PID_BUFFER_LEN ==> first_pid_buffer_len(initial_len)
            == initial_len,
        pid_step_after(buffer_len, bytes_written) matches PidBufferStep::Call(len) ==> buffer_len
            < len <= MAX_PID_BUFFER_LEN && len <= 2 * buffer_len && (len == 2 * buffer_len || len
            == MAX_PID_BUFFER_LEN),
        buffer_len == MAX_PID_BUFFER_LEN ==> pid_step_after(buffer_len, bytes_written) is Done,
        pid_step_after(buffer_len, bytes_written) matches PidBufferStep::Done(count) ==> count
            <= bytes_written / 4 && count <= buffer_len,
{
}

} // verus!
