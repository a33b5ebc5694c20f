use crate::base::error::Code;
use crate::calls::ERROR_INSUFFICIENT_BUFFER;
use crate::common::To;
use vstd::prelude::*;

verus! {

/// The number of wide characters in the longest path that the system accepts.
pub const MAX_CHARS_IN_LONG_PATH: usize = 32767;

/// `PROCESS_NAME_WIN32`: a full path in Win32 format.
pub const PROCESS_NAME_WIN32: u32 = 0;

/// `PROCESS_NAME_NATIVE`: a full path in native system format.
pub const PROCESS_NAME_NATIVE: u32 = 1;

/// `PROCESS_AFFINITY_ENABLE_AUTO_UPDATE`
pub const PROCESS_AFFINITY_ENABLE_AUTO_UPDATE: u32 = 1;

/// `PROCESS_AFFINITY_DISABLE_AUTO_UPDATE`
pub const PROCESS_AFFINITY_DISABLE_AUTO_UPDATE: u32 = 0;

impl To<(u16, u16)> for u32 {
    /// Splits a version word into `(major, minor)`: the major version is the high-order
    /// word and the minor version the low-order word.
    #[inline]
    fn to(&self) -> (version: (u16, u16))
        ensures
            version.0 as int == *self as int / 65536,
            version.1 as int == *self as int % 65536,
    {
        ((*self / 65536) as u16, (*self % 65536) as u16)
    }
}

/// The path format that `get_full_image_name` asks for.
pub fn image_name_format(use_win32_path_format: bool) -> (format: u32)
    ensures
        format == if use_win32_path_format {
            PROCESS_NAME_WIN32
        } else {
            PROCESS_NAME_NATIVE
        },
{
    if use_win32_path_format {
        PROCESS_NAME_WIN32
    } else {
        PROCESS_NAME_NATIVE
    }
}

/// The affinity update mode that `set_current_affinity_update_mode` sets.
pub fn affinity_update_mode(enable_auto_update: bool) -> (flags: u32)
    ensures
        flags == if enable_auto_update {
            PROCESS_AFFINITY_ENABLE_AUTO_UPDATE
        } else {
            PROCESS_AFFINITY_DISABLE_AUTO_UPDATE
        },
{
    if enable_auto_update {
        PROCESS_AFFINITY_ENABLE_AUTO_UPDATE
    } else {
        PROCESS_AFFINITY_DISABLE_AUTO_UPDATE
    }
}

/// The version word is rebuilt from its two halves.
pub proof fn lemma_version_halves(word: u32)
    ensures
        (word as int / 65536) * 65536 + word as int % 65536 == word as int,
        word as int / 65536 <= 65535,
{
}

/// Decides what `get_default_cpu_sets` does after asking for the number of default CPU
/// sets with an empty buffer: a failure other than `ERROR_INSUFFICIENT_BUFFER` (which
/// only says that there are sets to receive) is the error; otherwise `None` when there
/// are no sets, or the number of sets to receive.
pub fn default_cpu_set_count(succeeded: bool, last_error: u32, count: u32) -> (result: Result<
    Option<u32>,
    Code,
>)
    ensures
        result == if !succeeded && last_error != ERROR_INSUFFICIENT_BUFFER {
            Err::<Option<u32>, Code>(Code::Win32(last_error))
        } else if count == 0 {
            Ok(None)
        } else {
            Ok(Some(count))
        },
{
    if !succeeded && last_error != ERROR_INSUFFICIENT_BUFFER {
        Err(Code::from_win32(last_error))
    } else if count == 0 {
        Ok(None)
    } else {
        Ok(Some(count))
    }
}

} // verus!
