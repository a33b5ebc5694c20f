/// Device power states and the device enumeration filters.
pub mod device;
/// Power information levels.
pub mod info;

use crate::base::error::Code;
use crate::calls::{check_win32, win32_outcome};
use crate::common::To;
use vstd::prelude::*;
use vstd::string::*;

verus! {

/// `POWER_PLATFORM_ROLE_V1`: the platform role version for Windows 7, Windows Server 2008 R2,
/// Windows Vista and Windows Server 2008.
pub const POWER_PLATFORM_ROLE_V1: u32 = 1;

/// `POWER_PLATFORM_ROLE_V2`: the platform role version for Windows 8, Windows Server 2012 and
/// newer versions of Windows.
pub const POWER_PLATFORM_ROLE_V2: u32 = 2;

/// Indicates the OEM's preferred power management profile. These values are read from the
/// `Preferred_PM_Profile` field of the `Fixed ACPI Description Table` (`FADT`).
#[derive(Debug, Copy, Clone, Eq, PartialEq, Structural)]
pub enum PlatformRole {
    /// The OEM did not specify a specific role.
    Unspecified,
    /// The OEM specified a desktop role.
    Desktop,
    /// The OEM specified a mobile role (for example, a laptop).
    Mobile,
    /// The OEM specified a workstation role.
    Workstation,
    /// The OEM specified an enterprise server role.
    EnterpriseServer,
    /// The OEM specified a single office/home office (SOHO) server role.
    SOHOServer,
    /// The OEM specified an appliance PC role.
    AppliancePC,
    /// The OEM specified a performance server role.
    PerformanceServer,
    /// The OEM specified a tablet form factor role.
    Slate,
}

impl PlatformRole {
    /// The `POWER_PLATFORM_ROLE` number of the role: its position in the list of roles,
    /// from `PlatformRoleUnspecified` (`0`) to `PlatformRoleSlate` (`8`).
    pub open spec fn number(self) -> int {
        match self {
            PlatformRole::Unspecified => 0,
            PlatformRole::Desktop => 1,
            PlatformRole::Mobile => 2,
            PlatformRole::Workstation => 3,
            PlatformRole::EnterpriseServer => 4,
            PlatformRole::SOHOServer => 5,
            PlatformRole::AppliancePC => 6,
            PlatformRole::PerformanceServer => 7,
            PlatformRole::Slate => 8,
        }
    }
}

/// The role that the `POWER_PLATFORM_ROLE` value `value` stands for, if any.
pub open spec fn platform_role_from_value(value: int) -> Option<PlatformRole> {
    if value == 0 {
        Some(PlatformRole::Unspecified)
    } else if value == 1 {
        Some(PlatformRole::Desktop)
    } else if value == 2 {
        Some(PlatformRole::Mobile)
    } else if value == 3 {
        Some(PlatformRole::Workstation)
    } else if value == 4 {
        Some(PlatformRole::EnterpriseServer)
    } else if value == 5 {
        Some(PlatformRole::SOHOServer)
    } else if value == 6 {
        Some(PlatformRole::AppliancePC)
    } else if value == 7 {
        Some(PlatformRole::PerformanceServer)
    } else if value == 8 {
        Some(PlatformRole::Slate)
    } else {
        None
    }
}

impl PlatformRole {
    /// The text that `Display` gives for the role.
    pub open spec fn display_text(self) -> Seq<char> {
        match self {
            PlatformRole::Unspecified => "Unspecified"@,
            PlatformRole::Desktop => "Desktop"@,
            PlatformRole::Mobile => "Mobile"@,
            PlatformRole::Workstation => "Workstation"@,
            PlatformRole::EnterpriseServer => "Enterprise server"@,
            PlatformRole::SOHOServer => "SOHO server"@,
            PlatformRole::AppliancePC => "Appliance PC"@,
            PlatformRole::PerformanceServer => "Performance server"@,
            PlatformRole::Slate => "Slate"@,
        }
    }

    /// The role as `Display` shows it, such as `Enterprise server`.
    pub fn to_string(&self) -> (text: String)
        ensures
            text@ == self.display_text(),
    {
        match self {
            Self::Unspecified => String::from_str("Unspecified"),
            Self::Desktop => String::from_str("Desktop"),
            Self::Mobile => String::from_str("Mobile"),
            Self::Workstation => String::from_str("Workstation"),
            Self::EnterpriseServer => String::from_str("Enterprise server"),
            Self::SOHOServer => String::from_str("SOHO server"),
            Self::AppliancePC => String::from_str("Appliance PC"),
            Self::PerformanceServer => String::from_str("Performance server"),
            Self::Slate => String::from_str("Slate"),
        }
    }
}

impl Default for PlatformRole {
    /// The default role is [`PlatformRole::Unspecified`].
    fn default() -> (role: Self)
        ensures
            role == PlatformRole::Unspecified,
    {
        PlatformRole::Unspecified
    }
}

impl To<Option<PlatformRole>> for i32 {
    /// The platform role that a `POWER_PLATFORM_ROLE` value stands for, or `None` for a
    /// value that no role has.
    #[inline]
    fn to(&self) -> (role: Option<PlatformRole>)
        ensures
            role == platform_role_from_value(*self as int),
    {
        match *self {
            0 => Some(PlatformRole::Unspecified),
            1 => Some(PlatformRole::Desktop),
            2 => Some(PlatformRole::Mobile),
            3 => Some(PlatformRole::Workstation),
            4 => Some(PlatformRole::EnterpriseServer),
            5 => Some(PlatformRole::SOHOServer),
            6 => Some(PlatformRole::AppliancePC),
            7 => Some(PlatformRole::PerformanceServer),
            8 => Some(PlatformRole::Slate),
            _ => None,
        }
    }
}

/// Decides what [`get_platform_role`] returns from the value that
/// `PowerDeterminePlatformRoleEx` gave and the last Win32 error after it: the role (or
/// `None` for a role that this version of Windows does not know) when the last error is
/// `ERROR_SUCCESS`, that error otherwise.
pub fn platform_role_result(value: i32, last_error: u32) -> (result: Result<
    Option<PlatformRole>,
    Code,
>)
    ensures
        result == win32_outcome(last_error, platform_role_from_value(value as int)),
{
    let role: Option<PlatformRole> = value.to();
    check_win32(last_error, role)
}

/// The `POWER_PLATFORM_ROLE` values that name a role are exactly `0..=8`, and no two of
/// them name the same role.
pub proof fn lemma_platform_role_values(a: int, b: int)
    ensures
        platform_role_from_value(a) is Some <==> 0 <= a <= 8,
        platform_role_from_value(a) is Some && platform_role_from_value(a)
            == platform_role_from_value(b) ==> a == b,
{
}

/// Each `POWER_PLATFORM_ROLE` value names the role of the same number, and each role is
/// named by its own number: a value read back from a role gives that role.
pub proof fn lemma_platform_roles_by_number(value: int, role: PlatformRole)
    ensures
        platform_role_from_value(value) matches Some(r) ==> r.number() == value,
        platform_role_from_value(role.number()) == Some(role),
        platform_role_from_value(4) == Some(PlatformRole::EnterpriseServer),
        platform_role_from_value(5) == Some(PlatformRole::SOHOServer),
{
}

} // verus!
