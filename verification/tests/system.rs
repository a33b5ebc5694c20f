use windows_sys::Win32::System::Threading as th;
use windows_sys::Win32::UI::WindowsAndMessaging as wm;
use win_api_wrapper::base::error::Code;
use win_api_wrapper::common::To;
use win_api_wrapper::win32::system::diagnostics::debug::{
    format_message_buffer_flags, format_message_flags, FormatMessagetOptions, FormatSource,
};
use win_api_wrapper::win32::system::power::device::{
    device_matched, device_name_filter, EnumerationOptions, MAX_DEVICE_NAME_SIZE,
};
use win_api_wrapper::win32::system::power::info::PowerPolicy;
use win_api_wrapper::win32::system::power::{platform_role_result, PlatformRole};
use win_api_wrapper::win32::system::process_status::{
    first_pid_buffer_step, next_pid_buffer_step, PidBufferStep, MAX_PID_BUFFER_LEN,
};
use win_api_wrapper::win32::system::registry::{
    class_buffer_len, class_query_len, enumerated_value, mui_string_flags, wide_chars_in_bytes,
    RegistryValue, REG_MUI_STRING_TRUNCATE,
};
use win_api_wrapper::win32::system::threading::process::{
    affinity_update_mode, default_cpu_set_count, image_name_format,
};
use win_api_wrapper::win32::system::threading::thread::{CpuPriority, DynamicCodePolicy};
use win_api_wrapper::win32::system::threading::{exit_code_status, is_still_active, STILL_ACTIVE};
use win_api_wrapper::win32::system::time::FileTime;
use win_api_wrapper::win32::ui::messaging::{cursor_position, is_sender_blocked_by, Point};
use win_api_wrapper::win32::ui::window::text_length_result;
use windows_sys::Win32::System::Diagnostics::Debug as dbg;
use windows_sys::Win32::System::Power as pw;

#[test]
fn platform_roles() {
    assert_eq!(0i32.to(), Some(PlatformRole::Unspecified));
    assert_eq!(2i32.to(), Some(PlatformRole::Mobile));
    assert_eq!(8i32.to(), Some(PlatformRole::Slate));
    let none: Option<PlatformRole> = 9i32.to();
    assert_eq!(none, None);
    let none: Option<PlatformRole> = (-1i32).to();
    assert_eq!(none, None);
    assert_eq!(PlatformRole::default(), PlatformRole::Unspecified);
}

#[test]
fn platform_role_text() {
    assert_eq!(PlatformRole::EnterpriseServer.to_string(), "Enterprise server");
    assert_eq!(PlatformRole::SOHOServer.to_string(), "SOHO server");
    assert_eq!(PlatformRole::AppliancePC.to_string(), "Appliance PC");
    assert_eq!(PlatformRole::Desktop.to_string(), "Desktop");
}

#[test]
fn platform_role_results() {
    assert_eq!(platform_role_result(3, 0), Ok(Some(PlatformRole::Workstation)));
    assert_eq!(platform_role_result(42, 0), Ok(None));
    assert_eq!(platform_role_result(3, 87), Err(Code::Win32(87)));
}

#[test]
fn power_policies() {
    assert_eq!(PowerPolicy::default(), PowerPolicy::Current);
    assert_eq!(PowerPolicy::Current.information_level(), pw::SystemPowerPolicyCurrent);
    assert_eq!(PowerPolicy::AC.information_level(), pw::SystemPowerPolicyAc);
    assert_eq!(PowerPolicy::DC.information_level(), pw::SystemPowerPolicyDc);
    assert_eq!(PowerPolicy::AC.to_string(), "AC");
    assert_eq!(PowerPolicy::Current.to_string(), "Current");
}

#[test]
fn enumeration_options_match_windows() {
    assert_eq!(EnumerationOptions::empty().bits(), 0);
    assert_eq!(EnumerationOptions::filter_present().bits(), pw::DEVICEPOWER_FILTER_DEVICES_PRESENT);
    assert_eq!(EnumerationOptions::filter_wake_enabled().bits(), pw::DEVICEPOWER_FILTER_WAKEENABLED);
    assert_eq!(
        EnumerationOptions::filter_wake_programmable().bits(),
        pw::DEVICEPOWER_FILTER_WAKEPROGRAMMABLE
    );
    assert_eq!(
        EnumerationOptions::and_operation_on_capabilities().bits(),
        pw::DEVICEPOWER_AND_OPERATION
    );
    assert_eq!(
        EnumerationOptions::all().bits(),
        pw::DEVICEPOWER_FILTER_DEVICES_PRESENT
            | pw::DEVICEPOWER_FILTER_WAKEENABLED
            | pw::DEVICEPOWER_FILTER_WAKEPROGRAMMABLE
            | pw::DEVICEPOWER_AND_OPERATION
    );
    assert_eq!(MAX_DEVICE_NAME_SIZE, windows_sys::Win32::Foundation::MAX_PATH as usize * 2);
}

#[test]
fn enumeration_option_sets() {
    let present = EnumerationOptions::filter_present();
    let wake = EnumerationOptions::filter_wake_enabled();
    let both = present.union(wake);
    assert!(both.contains(present));
    assert!(both.contains(wake));
    assert!(!present.contains(wake));
    assert!(EnumerationOptions::all().contains(both));
    assert_eq!(EnumerationOptions::from_bits_truncate(0xFFFF_FFFF), EnumerationOptions::all());
    assert_eq!(EnumerationOptions::from_bits_retain(3).bits(), 3);
    assert_eq!(present.hardware_id_flags(), 0xA000_0000);
    assert_eq!(present.name_filter_flags(), pw::DEVICEPOWER_FILTER_DEVICES_PRESENT | pw::DEVICEPOWER_FILTER_ON_NAME);
    assert_eq!(EnumerationOptions::default(), EnumerationOptions::empty());
    assert!(EnumerationOptions::default().is_empty());
    assert!(!present.is_empty());
    assert_eq!(EnumerationOptions::from_bits(0x2800_0000), Some(both));
    assert_eq!(EnumerationOptions::from_bits(0), Some(EnumerationOptions::empty()));
    assert_eq!(EnumerationOptions::from_bits(3), None);
    assert_eq!(EnumerationOptions::from_bits(0x8000_0000), None);
    assert_eq!(both.intersection(present), present);
    assert!(present.intersection(wake).is_empty());
    assert_eq!(both.difference(present), wake);
    assert_eq!(EnumerationOptions::all().difference(EnumerationOptions::all()), EnumerationOptions::empty());
}

#[test]
fn device_matches() {
    assert!(device_matched(true, &[0x41, 0, 0, 0]));
    assert!(!device_matched(true, &[0, 0, 0x41, 0]));
    assert!(!device_matched(false, &[0x41, 0, 0, 0]));
    assert!(!device_matched(true, &[]));
}

#[test]
fn device_name_filters() {
    assert_eq!(device_name_filter(&[]), None);
    assert_eq!(device_name_filter(&[0x41, 0x42]), Some(vec![0x41, 0, 0x42, 0, 0, 0]));
}

#[test]
fn format_message_flag_sets() {
    let flags = format_message_flags(FormatSource::System, false, FormatMessagetOptions::All, false);
    assert_eq!(
        flags,
        dbg::FORMAT_MESSAGE_ALLOCATE_BUFFER
            | dbg::FORMAT_MESSAGE_FROM_SYSTEM
            | dbg::FORMAT_MESSAGE_IGNORE_INSERTS
            | 0xFF
    );
    let flags = format_message_flags(FormatSource::Module, true, FormatMessagetOptions::NoFlags, true);
    assert_eq!(
        flags,
        dbg::FORMAT_MESSAGE_ALLOCATE_BUFFER
            | dbg::FORMAT_MESSAGE_FROM_HMODULE
            | dbg::FORMAT_MESSAGE_ARGUMENT_ARRAY
            | dbg::FORMAT_MESSAGE_FROM_SYSTEM
    );
    let flags = format_message_buffer_flags(FormatSource::Text, false, FormatMessagetOptions::Inserts, true);
    assert_eq!(flags, dbg::FORMAT_MESSAGE_FROM_STRING | dbg::FORMAT_MESSAGE_IGNORE_INSERTS);
    assert_eq!(FormatMessagetOptions::RegularLineBreaks.to(), 0xFFu32);
    assert_eq!(FormatMessagetOptions::NoFlags.to(), 0u32);
}

#[test]
fn pid_buffer_steps() {
    assert_eq!(first_pid_buffer_step(1024), PidBufferStep::Call(1024));
    assert_eq!(first_pid_buffer_step(0), PidBufferStep::Call(1));
    assert_eq!(first_pid_buffer_step(MAX_PID_BUFFER_LEN), PidBufferStep::Call(MAX_PID_BUFFER_LEN));
    assert_eq!(
        first_pid_buffer_step(MAX_PID_BUFFER_LEN + 1),
        PidBufferStep::Call(MAX_PID_BUFFER_LEN)
    );
    assert_eq!(next_pid_buffer_step(1024, 400), PidBufferStep::Done(100));
    assert_eq!(next_pid_buffer_step(1024, 4096), PidBufferStep::Call(2048));
    assert_eq!(next_pid_buffer_step(1, 4), PidBufferStep::Call(2));
    assert_eq!(next_pid_buffer_step(1, 0), PidBufferStep::Done(0));
    assert_eq!(next_pid_buffer_step(0x3000_0000, 0xC000_0000), PidBufferStep::Call(0x6000_0000));
    assert_eq!(next_pid_buffer_step(0x4000_0000, 0xFFFF_FFFF), PidBufferStep::Done(0x3FFF_FFFF));
    assert_eq!(next_pid_buffer_step(MAX_PID_BUFFER_LEN, 400), PidBufferStep::Done(100));
}

#[test]
fn registry_helpers() {
    let value = RegistryValue::default();
    assert!(value.data.is_empty());
    assert_eq!(value.value_type, 0);
    assert_eq!(wide_chars_in_bytes(10), 5);
    assert_eq!(wide_chars_in_bytes(11), 5);
    assert_eq!(mui_string_flags(true), REG_MUI_STRING_TRUNCATE);
    assert_eq!(mui_string_flags(false), 0);
    assert_eq!(REG_MUI_STRING_TRUNCATE, windows_sys::Win32::System::Registry::REG_MUI_STRING_TRUNCATE);
    assert_eq!(class_buffer_len(0), 1);
    assert_eq!(class_buffer_len(7), 8);
    assert_eq!(class_query_len(0), None);
    assert_eq!(class_query_len(7), Some(8));
    let value = enumerated_value(Some(&[1, 2, 3, 4]), 2, 4);
    assert_eq!(value.data, vec![1, 2]);
    assert_eq!(value.value_type, 4);
    let value = enumerated_value(None, 2, 4);
    assert_eq!(value, RegistryValue::default());
}

#[test]
fn exit_codes() {
    assert_eq!(STILL_ACTIVE, windows_sys::Win32::Foundation::STILL_ACTIVE as u32);
    assert_eq!(exit_code_status(259), None);
    assert_eq!(exit_code_status(0), Some(0));
    assert_eq!(exit_code_status(1), Some(1));
    assert!(is_still_active(259));
    assert!(!is_still_active(0));
}

#[test]
fn process_helpers() {
    let version: (u16, u16) = 0x000A_0002u32.to();
    assert_eq!(version, (10, 2));
    let version: (u16, u16) = 0xFFFF_0000u32.to();
    assert_eq!(version, (0xFFFF, 0));
    assert_eq!(image_name_format(true), th::PROCESS_NAME_WIN32);
    assert_eq!(image_name_format(false), th::PROCESS_NAME_NATIVE);
    assert_eq!(affinity_update_mode(true), th::PROCESS_AFFINITY_ENABLE_AUTO_UPDATE);
    assert_eq!(affinity_update_mode(false), th::PROCESS_AFFINITY_DISABLE_AUTO_UPDATE);
}

#[test]
fn thread_information_classes() {
    assert_eq!(CpuPriority::information_class(), th::ThreadAbsoluteCpuPriority);
    assert_eq!(DynamicCodePolicy::information_class(), th::ThreadDynamicCodePolicy);
    assert_eq!(CpuPriority::default(), CpuPriority::default());
}

#[test]
fn file_times() {
    let time = FileTime { low_date_time: 20_000, high_date_time: 0 };
    assert_eq!(time.to_millis(), 2);
    let time = FileTime { low_date_time: 0, high_date_time: 1 };
    assert_eq!(time.to_intervals(), 0x1_0000_0000);
    assert_eq!(time.to_millis(), 0x1_0000_0000 / 10_000);
    let max = FileTime { low_date_time: u32::MAX, high_date_time: u32::MAX };
    assert_eq!(max.to_intervals(), u64::MAX);
}

#[test]
fn default_cpu_set_counts() {
    assert_eq!(default_cpu_set_count(true, 0, 0), Ok(None));
    assert_eq!(default_cpu_set_count(false, 122, 4), Ok(Some(4)));
    assert_eq!(default_cpu_set_count(false, 122, 0), Ok(None));
    assert_eq!(default_cpu_set_count(false, 5, 4), Err(Code::Win32(5)));
}

#[test]
fn window_text_lengths() {
    assert_eq!(text_length_result(7, 0), Ok(7));
    assert_eq!(text_length_result(7, 5), Ok(7));
    assert_eq!(text_length_result(0, 0), Ok(0));
    assert_eq!(text_length_result(0, 1400), Err(Code::Win32(1400)));
}

#[test]
fn messaging_helpers() {
    assert_eq!(cursor_position(0x0010_0020), Point { x: 0x20, y: 0x10 });
    assert_eq!(cursor_position(0x0002_0001), Point { x: 1, y: 2 });
    assert_eq!(cursor_position(0xFFFF_FFFF), Point { x: -1, y: -1 });
    assert_eq!(cursor_position(0x8000_7FFF), Point { x: 32767, y: -32768 });
    assert!(is_sender_blocked_by(wm::ISMEX_SEND));
    assert!(!is_sender_blocked_by(wm::ISMEX_SEND | wm::ISMEX_REPLIED));
    assert!(!is_sender_blocked_by(wm::ISMEX_NOSEND));
    assert!(is_sender_blocked_by(wm::ISMEX_SEND | wm::ISMEX_NOTIFY));
}

#[test]
fn file_time_debug_text() {
    let time = FileTime { low_date_time: 7, high_date_time: 30_000_000 };
    assert_eq!(time.to_debug_string(), "high_date_time: 30000000, low_date_time: 7");
    assert_eq!(FileTime::default().to_debug_string(), "high_date_time: 0, low_date_time: 0");
}
