/// The Win32 error type.
pub mod result;
/// `Win32::System`
pub mod system;
/// `Win32::UI`
pub mod ui;
