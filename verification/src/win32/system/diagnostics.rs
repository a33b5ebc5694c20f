/// `Win32::System::Diagnostics::Debug`
pub mod debug;
