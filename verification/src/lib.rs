//! Safe, verified building blocks for working with the Windows API: error codes,
//! wide (UTF-16) string buffers, GUIDs and the decisions that turn raw Win32 return
//! values into results.

pub mod base;
/// Decisions that turn the raw return values of Windows API calls into results.
pub mod calls;
/// The behaviour that surrounds the Win32 API calls.
pub mod win32;
/// Traits shared by the whole crate.
pub mod common;
