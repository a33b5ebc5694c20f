/// `Win32::UI::WindowsAndMessaging` messages
pub mod messaging;
/// Windows and their titles
pub mod window;
