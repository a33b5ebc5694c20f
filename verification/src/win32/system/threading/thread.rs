use vstd::prelude::*;

verus! {

/// `ThreadMemoryPriority`
pub const THREAD_MEMORY_PRIORITY: i32 = 0;

/// `ThreadAbsoluteCpuPriority`
pub const THREAD_ABSOLUTE_CPU_PRIORITY: i32 = 1;

/// `ThreadDynamicCodePolicy`
pub const THREAD_DYNAMIC_CODE_POLICY: i32 = 2;

/// `ThreadPowerThrottling`
pub const THREAD_POWER_THROTTLING: i32 = 3;

/// The absolute CPU priority of a thread.
#[derive(Debug, Default, Copy, Clone, PartialEq, Eq)]
pub struct CpuPriority(i32);

/// The dynamic code policy of a thread.
#[derive(Debug, Default, Copy, Clone, PartialEq, Eq)]
pub struct DynamicCodePolicy(u32);

impl CpuPriority {
    /// Gets the associated `THREAD_INFORMATION_CLASS`.
    pub fn information_class() -> (class: i32)
        ensures
            class == THREAD_ABSOLUTE_CPU_PRIORITY,
    {
        THREAD_ABSOLUTE_CPU_PRIORITY
    }
}

impl DynamicCodePolicy {
    /// Gets the associated `THREAD_INFORMATION_CLASS`.
    pub fn information_class() -> (class: i32)
        ensures
            class == THREAD_DYNAMIC_CODE_POLICY,
    {
        THREAD_DYNAMIC_CODE_POLICY
    }
}

} // verus!
