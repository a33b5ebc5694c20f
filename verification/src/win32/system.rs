/// `Win32::System::Diagnostics`
pub mod diagnostics;
/// `Win32::System::Power`
pub mod power;
/// `Win32::System::ProcessStatus`
pub mod process_status;
/// `Win32::System::Registry`
pub mod registry;
/// `Win32::System::Threading`
pub mod threading;
/// `Win32::System::Time`
pub mod time;
