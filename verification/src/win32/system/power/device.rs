use crate::base::{encode_units, wide_string_to_bytes_with_nul};
use vstd::prelude::*;

verus! {

/// `DEVICEPOWER_FILTER_DEVICES_PRESENT`
pub const DEVICEPOWER_FILTER_DEVICES_PRESENT: u32 = 0x2000_0000;

/// `DEVICEPOWER_FILTER_WAKEENABLED`
pub const DEVICEPOWER_FILTER_WAKEENABLED: u32 = 0x0800_0000;

/// `DEVICEPOWER_FILTER_WAKEPROGRAMMABLE`
pub const DEVICEPOWER_FILTER_WAKEPROGRAMMABLE: u32 = 0x0400_0000;

/// `DEVICEPOWER_AND_OPERATION`
pub const DEVICEPOWER_AND_OPERATION: u32 = 0x4000_0000;

/// `DEVICEPOWER_FILTER_ON_NAME`
pub const DEVICEPOWER_FILTER_ON_NAME: u32 = 0x0200_0000;

/// `DEVICEPOWER_HARDWAREID`
pub const DEVICEPOWER_HARDWAREID: u32 = 0x8000_0000;

/// `MAX_PATH`
pub const MAX_PATH: u32 = 260;

/// The size in bytes of the buffer that receives a device name: `MAX_PATH` wide characters.
pub const MAX_DEVICE_NAME_SIZE: usize = 520;

/// The bits of every defined enumeration option.
pub open spec fn all_option_bits() -> u32 {
    DEVICEPOWER_FILTER_DEVICES_PRESENT | DEVICEPOWER_FILTER_WAKEENABLED
        | DEVICEPOWER_FILTER_WAKEPROGRAMMABLE | DEVICEPOWER_AND_OPERATION
}

/// Options that select the devices that the device-power enumeration reports.
#[derive(Clone, Copy, Debug, PartialEq, Eq, Structural)]
pub struct EnumerationOptions {
    bits: u32,
}

impl EnumerationOptions {
    /// Only devices that are present (`FilterPresent`).
    pub fn filter_present() -> (options: Self)
        ensures
            options.value() == DEVICEPOWER_FILTER_DEVICES_PRESENT,
    {
        Self { bits: DEVICEPOWER_FILTER_DEVICES_PRESENT }
    }

    /// Only devices that are enabled to wake the system (`FilterWakeEnabled`).
    pub fn filter_wake_enabled() -> (options: Self)
        ensures
            options.value() == DEVICEPOWER_FILTER_WAKEENABLED,
    {
        Self { bits: DEVICEPOWER_FILTER_WAKEENABLED }
    }

    /// Only devices that can be programmed to wake the system (`FilterWakeProgrammable`).
    pub fn filter_wake_programmable() -> (options: Self)
        ensures
            options.value() == DEVICEPOWER_FILTER_WAKEPROGRAMMABLE,
    {
        Self { bits: DEVICEPOWER_FILTER_WAKEPROGRAMMABLE }
    }

    /// The capability flags must all match rather than any of them
    /// (`AndOperationOnCapabilities`).
    pub fn and_operation_on_capabilities() -> (options: Self)
        ensures
            options.value() == DEVICEPOWER_AND_OPERATION,
    {
        Self { bits: DEVICEPOWER_AND_OPERATION }
    }

    /// The option bits.
    pub closed spec fn value(self) -> u32 {
        self.bits
    }

    /// Gets the option bits.
    pub fn bits(&self) -> (bits: u32)
        ensures
            bits == self.value(),
    {
        self.bits
    }

    /// The options with exactly the bits `bits`, defined or not.
    pub fn from_bits_retain(bits: u32) -> (options: Self)
        ensures
            options.value() == bits,
    {
        Self { bits }
    }

    /// The options of `bits` that are defined; the other bits are dropped.
    pub fn from_bits_truncate(bits: u32) -> (options: Self)
        ensures
            options.value() == bits & all_option_bits(),
    {
        Self { bits: bits & (DEVICEPOWER_FILTER_DEVICES_PRESENT | DEVICEPOWER_FILTER_WAKEENABLED
            | DEVICEPOWER_FILTER_WAKEPROGRAMMABLE | DEVICEPOWER_AND_OPERATION) }
    }

    /// No option (`None`).
    pub fn empty() -> (options: Self)
        ensures
            options.value() == 0,
    {
        Self { bits: 0 }
    }

    /// Every defined option (`All`).
    pub fn all() -> (options: Self)
        ensures
            options.value() == all_option_bits(),
    {
        Self { bits: DEVICEPOWER_FILTER_DEVICES_PRESENT | DEVICEPOWER_FILTER_WAKEENABLED
            | DEVICEPOWER_FILTER_WAKEPROGRAMMABLE | DEVICEPOWER_AND_OPERATION }
    }

    /// The options of `self` and of `other`.
    pub fn union(self, other: Self) -> (options: Self)
        ensures
            options.value() == self.value() | other.value(),
    {
        Self { bits: self.bits | other.bits }
    }

    /// The options of `bits` when every bit of it is a defined option; `None` when any other
    /// bit is set.
    pub fn from_bits(bits: u32) -> (options: Option<Self>)
        ensures
            options is Some <==> bits & !all_option_bits() == 0,
            options matches Some(o) ==> o.value() == bits,
    {
        if bits & !(DEVICEPOWER_FILTER_DEVICES_PRESENT | DEVICEPOWER_FILTER_WAKEENABLED
            | DEVICEPOWER_FILTER_WAKEPROGRAMMABLE | DEVICEPOWER_AND_OPERATION) == 0 {
            Some(Self { bits })
        } else {
            None
        }
    }

    /// The options that `self` and `other` both have.
    pub fn intersection(self, other: Self) -> (options: Self)
        ensures
            options.value() == self.value() & other.value(),
    {
        Self { bits: self.bits & other.bits }
    }

    /// The options of `self` that `other` does not have.
    pub fn difference(self, other: Self) -> (options: Self)
        ensures
            options.value() == self.value() & !other.value(),
    {
        Self { bits: self.bits & !other.bits }
    }

    /// Determines whether no option is set.
    pub fn is_empty(&self) -> (empty: bool)
        ensures
            empty == (self.value() == 0),
    {
        self.bits == 0
    }

    /// Determines whether every option of `other` is one of `self`.
    pub fn contains(&self, other: Self) -> (contained: bool)
        ensures
            contained == (self.value() & other.value() == other.value()),
    {
        self.bits & other.bits == other.bits
    }

    /// The enumeration flags that list the hardware IDs of the devices selected by these
    /// options rather than their names.
    pub fn hardware_id_flags(&self) -> (flags: u32)
        ensures
            flags == self.value() | DEVICEPOWER_HARDWAREID,
    {
        self.bits | DEVICEPOWER_HARDWAREID
    }

    /// The enumeration flags that look for a device by its name with these options.
    pub fn name_filter_flags(&self) -> (flags: u32)
        ensures
            flags == self.value() | DEVICEPOWER_FILTER_ON_NAME,
    {
        self.bits | DEVICEPOWER_FILTER_ON_NAME
    }
}

impl Default for EnumerationOptions {
    /// No option, as [`EnumerationOptions::empty`].
    fn default() -> (options: Self)
        ensures
            options.value() == 0,
    {
        Self { bits: 0 }
    }
}

/// Every option is contained in `All`; a union contains both of its operands; truncation
/// keeps exactly the defined bits, so truncated options are contained in `All`.
pub proof fn lemma_option_sets(a: u32, b: u32)
    ensures
        (a | b) & a == a,
        (a | b) & b == b,
        all_option_bits() & DEVICEPOWER_FILTER_DEVICES_PRESENT == DEVICEPOWER_FILTER_DEVICES_PRESENT,
        all_option_bits() & DEVICEPOWER_FILTER_WAKEENABLED == DEVICEPOWER_FILTER_WAKEENABLED,
        all_option_bits() & DEVICEPOWER_FILTER_WAKEPROGRAMMABLE == DEVICEPOWER_FILTER_WAKEPROGRAMMABLE,
        all_option_bits() & DEVICEPOWER_AND_OPERATION == DEVICEPOWER_AND_OPERATION,
        all_option_bits() & (a & all_option_bits()) == a & all_option_bits(),
        (a & all_option_bits()) & DEVICEPOWER_HARDWAREID == 0,
        (a & all_option_bits()) & DEVICEPOWER_FILTER_ON_NAME == 0,
{
    assert((a | b) & a == a) by (bit_vector);
    assert((a | b) & b == b) by (bit_vector);
    assert(0x6C00_0000u32 & 0x2000_0000u32 == 0x2000_0000u32) by (bit_vector);
    assert(0x6C00_0000u32 & 0x0800_0000u32 == 0x0800_0000u32) by (bit_vector);
    assert(0x6C00_0000u32 & 0x0400_0000u32 == 0x0400_0000u32) by (bit_vector);
    assert(0x6C00_0000u32 & 0x4000_0000u32 == 0x4000_0000u32) by (bit_vector);
    assert(0x2000_0000u32 | 0x0800_0000u32 | 0x0400_0000u32 | 0x4000_0000u32 == 0x6C00_0000u32) by (bit_vector);
    assert(0x6C00_0000u32 & (a & 0x6C00_0000u32) == a & 0x6C00_0000u32) by (bit_vector);
    assert((a & 0x6C00_0000u32) & 0x8000_0000u32 == 0) by (bit_vector);
    assert((a & 0x6C00_0000u32) & 0x0200_0000u32 == 0) by (bit_vector);
}

/// The filter bytes with which the enumeration looks for the device named `name`: its
/// little-endian wide characters and the nul terminator; `None` for an empty name, which
/// no device has.
pub fn device_name_filter(name: &[u16]) -> (filter: Option<Vec<u8>>)
    requires
        2 * name@.len() + 2 <= usize::MAX,
    ensures
        name@.len() == 0 ==> filter is None,
        name@.len() > 0 ==> (filter matches Some(bytes) && bytes@ == encode_units(name@) + seq![
            0u8,
            0u8,
        ]),
{
    if name.len() == 0 {
        None
    } else {
        Some(wide_string_to_bytes_with_nul(name))
    }
}

/// Decides what `has_device` answers after the enumeration looked for a device by the
/// name in `filter`: a device was found and the system left a name in the buffer.
pub fn device_matched(found: bool, filter: &[u8]) -> (matched: bool)
    ensures
        matched == (found && filter@.len() > 0 && filter@[0] != 0),
{
    found && filter.len() > 0 && filter[0] != 0
}

} // verus!
