use vstd::prelude::*;
use vstd::string::*;

verus! {

/// `SystemPowerPolicyAc`: the information level of the AC power policy.
pub const SYSTEM_POWER_POLICY_AC: i32 = 0;

/// `SystemPowerPolicyDc`: the information level of the DC power policy.
pub const SYSTEM_POWER_POLICY_DC: i32 = 1;

/// `SystemPowerPolicyCurrent`: the information level of the current power policy.
pub const SYSTEM_POWER_POLICY_CURRENT: i32 = 8;

/// Represents the system power policies.
#[derive(Debug, Copy, Clone, PartialEq, Eq, Structural)]
pub enum PowerPolicy {
    /// The current system power policy.
    Current,
    /// The power policy used while the system is running on AC power.
    AC,
    /// The power policy used while the system is running on battery power.
    DC,
}

impl PowerPolicy {
    /// The `POWER_INFORMATION_LEVEL` of the policy.
    pub open spec fn level(self) -> i32 {
        match self {
            PowerPolicy::Current => SYSTEM_POWER_POLICY_CURRENT,
            PowerPolicy::AC => SYSTEM_POWER_POLICY_AC,
            PowerPolicy::DC => SYSTEM_POWER_POLICY_DC,
        }
    }

    /// The text that `Display` gives for the policy.
    pub open spec fn display_text(self) -> Seq<char> {
        match self {
            PowerPolicy::Current => "Current"@,
            PowerPolicy::AC => "AC"@,
            PowerPolicy::DC => "DC"@,
        }
    }

    /// Gets the associated `POWER_INFORMATION_LEVEL` for the power policy.
    pub fn information_level(self) -> (level: i32)
        ensures
            level == self.level(),
    {
        match self {
            Self::Current => SYSTEM_POWER_POLICY_CURRENT,
            Self::AC => SYSTEM_POWER_POLICY_AC,
            Self::DC => SYSTEM_POWER_POLICY_DC,
        }
    }

    /// The policy as `Display` shows it.
    pub fn to_string(&self) -> (text: String)
        ensures
            text@ == self.display_text(),
    {
        match self {
            Self::Current => String::from_str("Current"),
            Self::AC => String::from_str("AC"),
            Self::DC => String::from_str("DC"),
        }
    }
}

impl Default for PowerPolicy {
    /// The default policy is [`PowerPolicy::Current`].
    fn default() -> (policy: Self)
        ensures
            policy == PowerPolicy::Current,
    {
        PowerPolicy::Current
    }
}

/// Distinct policies read distinct information levels.
pub proof fn lemma_policy_levels_distinct(a: PowerPolicy, b: PowerPolicy)
    ensures
        a.level() == b.level() ==> a == b,
{
}

} // verus!
