use crate::common::To;
use vstd::prelude::*;

verus! {

/// `FORMAT_MESSAGE_ALLOCATE_BUFFER`
pub const FORMAT_MESSAGE_ALLOCATE_BUFFER: u32 = 0x100;

/// `FORMAT_MESSAGE_IGNORE_INSERTS`
pub const FORMAT_MESSAGE_IGNORE_INSERTS: u32 = 0x200;

/// `FORMAT_MESSAGE_FROM_STRING`
pub const FORMAT_MESSAGE_FROM_STRING: u32 = 0x400;

/// `FORMAT_MESSAGE_FROM_HMODULE`
pub const FORMAT_MESSAGE_FROM_HMODULE: u32 = 0x800;

/// `FORMAT_MESSAGE_FROM_SYSTEM`
pub const FORMAT_MESSAGE_FROM_SYSTEM: u32 = 0x1000;

/// `FORMAT_MESSAGE_ARGUMENT_ARRAY`
pub const FORMAT_MESSAGE_ARGUMENT_ARRAY: u32 = 0x2000;

/// Ignores the regular line breaks of the message definition text.
pub const FORMAT_MESSAGE_IGNORE_REGULAR_LINE_BREAKS: u32 = 0x000000FF;

/// The formatting options of a message.
#[derive(Debug, Clone, Copy, PartialEq, Eq, Structural)]
pub enum FormatMessagetOptions {
    /// No option (`None`).
    NoFlags,
    /// Ignore regular line breaks.
    RegularLineBreaks,
    /// Ignore message inserts.
    Inserts,
    /// Ignore both regular line breaks and message inserts.
    All,
}

impl FormatMessagetOptions {
    /// The option flags.
    pub open spec fn flags(self) -> u32 {
        match self {
            FormatMessagetOptions::NoFlags => 0,
            FormatMessagetOptions::RegularLineBreaks => FORMAT_MESSAGE_IGNORE_REGULAR_LINE_BREAKS,
            FormatMessagetOptions::Inserts => FORMAT_MESSAGE_IGNORE_INSERTS,
            FormatMessagetOptions::All => FORMAT_MESSAGE_IGNORE_INSERTS
                | FORMAT_MESSAGE_IGNORE_REGULAR_LINE_BREAKS,
        }
    }
}

impl To<u32> for FormatMessagetOptions {
    /// The option flags.
    #[inline]
    fn to(&self) -> (flags: u32)
        ensures
            flags == self.flags(),
    {
        match self {
            FormatMessagetOptions::NoFlags => 0,
            FormatMessagetOptions::RegularLineBreaks => FORMAT_MESSAGE_IGNORE_REGULAR_LINE_BREAKS,
            FormatMessagetOptions::Inserts => FORMAT_MESSAGE_IGNORE_INSERTS,
            FormatMessagetOptions::All => FORMAT_MESSAGE_IGNORE_INSERTS
                | FORMAT_MESSAGE_IGNORE_REGULAR_LINE_BREAKS,
        }
    }
}

/// Where a message definition is looked up.
#[derive(Debug, Clone, Copy, PartialEq, Eq, Structural)]
pub enum FormatSource {
    /// A message definition string.
    Text,
    /// The message table of a module.
    Module,
    /// The system message table.
    System,
}

impl FormatSource {
    /// The flag that selects the source.
    pub open spec fn flag(self) -> u32 {
        match self {
            FormatSource::Text => FORMAT_MESSAGE_FROM_STRING,
            FormatSource::Module => FORMAT_MESSAGE_FROM_HMODULE,
            FormatSource::System => FORMAT_MESSAGE_FROM_SYSTEM,
        }
    }

    /// Gets the flag that selects the source.
    pub fn format_message_options_flag(self) -> (flag: u32)
        ensures
            flag == self.flag(),
    {
        match self {
            FormatSource::Text => FORMAT_MESSAGE_FROM_STRING,
            FormatSource::Module => FORMAT_MESSAGE_FROM_HMODULE,
            FormatSource::System => FORMAT_MESSAGE_FROM_SYSTEM,
        }
    }
}

/// The flags of a message formatting call: the source, the argument array when there are
/// arguments, the options, and the system table as a fallback when a module's table may be
/// searched together with the system's (`can_search_system` counts for a module only).
/// `allocate` asks the system to allocate the message buffer.
pub open spec fn message_flags(
    source: FormatSource,
    has_args: bool,
    options: FormatMessagetOptions,
    can_search_system: bool,
    allocate: bool,
) -> u32 {
    let allocate_flag: u32 = if allocate {
        FORMAT_MESSAGE_ALLOCATE_BUFFER
    } else {
        0
    };
    let args_flag: u32 = if has_args {
        FORMAT_MESSAGE_ARGUMENT_ARRAY
    } else {
        0
    };
    let system_flag: u32 = if can_search_system && source == FormatSource::Module {
        FORMAT_MESSAGE_FROM_SYSTEM
    } else {
        0
    };
    allocate_flag | source.flag() | args_flag | options.flags() | system_flag
}

/// The flags with which `format_message` (and its `_from_module`, `_from_str` forms) lets
/// the system allocate the message.
pub fn format_message_flags(
    source: FormatSource,
    has_args: bool,
    options: FormatMessagetOptions,
    can_search_system: bool,
) -> (flags: u32)
    ensures
        flags == message_flags(source, has_args, options, can_search_system, true),
{
    let args_flag: u32 = if has_args {
        FORMAT_MESSAGE_ARGUMENT_ARRAY
    } else {
        0
    };
    let source_flag = source.format_message_options_flag();
    let system_flag: u32 = if can_search_system && source_flag == FORMAT_MESSAGE_FROM_HMODULE {
        FORMAT_MESSAGE_FROM_SYSTEM
    } else {
        0
    };
    FORMAT_MESSAGE_ALLOCATE_BUFFER | source_flag | args_flag | options.to() | system_flag
}

/// The flags with which the `_with_buffer` forms of `format_message` write the message
/// into the caller's buffer.
pub fn format_message_buffer_flags(
    source: FormatSource,
    has_args: bool,
    options: FormatMessagetOptions,
    can_search_system: bool,
) -> (flags: u32)
    ensures
        flags == message_flags(source, has_args, options, can_search_system, false),
{
    let args_flag: u32 = if has_args {
        FORMAT_MESSAGE_ARGUMENT_ARRAY
    } else {
        0
    };
    let source_flag = source.format_message_options_flag();
    let system_flag: u32 = if can_search_system && source_flag == FORMAT_MESSAGE_FROM_HMODULE {
        FORMAT_MESSAGE_FROM_SYSTEM
    } else {
        0
    };
    0 | source_flag | args_flag | options.to() | system_flag
}

/// The flags of a formatting call ask for the system table exactly when the system is the
/// source or a module's table may be searched together with it; they ask for an argument
/// array exactly when there are arguments, and for an allocated buffer exactly when asked.
pub proof fn lemma_message_flags(
    source: FormatSource,
    has_args: bool,
    options: FormatMessagetOptions,
    can_search_system: bool,
    allocate: bool,
)
    ensures
        (message_flags(source, has_args, options, can_search_system, allocate)
            & FORMAT_MESSAGE_FROM_SYSTEM != 0) <==> (source == FormatSource::System || (source
            == FormatSource::Module && can_search_system)),
        (message_flags(source, has_args, options, can_search_system, allocate)
            & FORMAT_MESSAGE_ARGUMENT_ARRAY != 0) <==> has_args,
        (message_flags(source, has_args, options, can_search_system, allocate)
            & FORMAT_MESSAGE_ALLOCATE_BUFFER != 0) <==> allocate,
        message_flags(source, has_args, options, can_search_system, allocate) & source.flag()
            == source.flag(),
        message_flags(source, has_args, options, can_search_system, allocate) & options.flags()
            == options.flags(),
{
    let a: u32 = if allocate {
        0x100u32
    } else {
        0
    };
    let g: u32 = if has_args {
        0x2000u32
    } else {
        0
    };
    let y: u32 = if can_search_system && source == FormatSource::Module {
        0x1000u32
    } else {
        0
    };
    let s = source.flag();
    let o = options.flags();
    assert(0x200u32 | 0xFFu32 == 0x2FFu32) by (bit_vector);
    assert(o == 0 || o == 0xFF || o == 0x200 || o == 0x2FF);
    assert(s == 0x400 || s == 0x800 || s == 0x1000);
    assert(a == 0 || a == 0x100);
    assert(g == 0 || g == 0x2000);
    assert(y == 0 || y == 0x1000);
    assert((a | s | g | o | y) & 0x1000u32 != 0 <==> (s == 0x1000u32 || y == 0x1000u32))
        by (bit_vector)
        requires
            o == 0 || o == 0xFF || o == 0x200 || o == 0x2FF,
            s == 0x400 || s == 0x800 || s == 0x1000,
            a == 0 || a == 0x100,
            g == 0 || g == 0x2000,
            y == 0 || y == 0x1000,
    ;
    assert((a | s | g | o | y) & 0x2000u32 != 0 <==> g == 0x2000u32) by (bit_vector)
        requires
            o == 0 || o == 0xFF || o == 0x200 || o == 0x2FF,
            s == 0x400 || s == 0x800 || s == 0x1000,
            a == 0 || a == 0x100,
            g == 0 || g == 0x2000,
            y == 0 || y == 0x1000,
    ;
    assert((a | s | g | o | y) & 0x100u32 != 0 <==> a == 0x100u32) by (bit_vector)
        requires
            o == 0 || o == 0xFF || o == 0x200 || o == 0x2FF,
            s == 0x400 || s == 0x800 || s == 0x1000,
            a == 0 || a == 0x100,
            g == 0 || g == 0x2000,
            y == 0 || y == 0x1000,
    ;
    assert((a | s | g | o | y) & s == s) by (bit_vector);
    assert((a | s | g | o | y) & o == o) by (bit_vector);
}

/// The bits of the flags of a formatting call that the lemma above leaves open: the
/// line-break bits (`0xFF`) are set exactly when the options ignore regular line breaks,
/// the inserts bit exactly when they ignore inserts, the string and module bits exactly
/// for those sources, and no bit above the argument-array bit is ever set.
pub proof fn lemma_message_flag_bits(
    source: FormatSource,
    has_args: bool,
    options: FormatMessagetOptions,
    can_search_system: bool,
    allocate: bool,
)
    ensures
        message_flags(source, has_args, options, can_search_system, allocate)
            & FORMAT_MESSAGE_IGNORE_REGULAR_LINE_BREAKS == if options
            == FormatMessagetOptions::RegularLineBreaks || options == FormatMessagetOptions::All {
            FORMAT_MESSAGE_IGNORE_REGULAR_LINE_BREAKS
        } else {
            0
        },
        (message_flags(source, has_args, options, can_search_system, allocate)
            & FORMAT_MESSAGE_IGNORE_INSERTS != 0) <==> (options == FormatMessagetOptions::Inserts
            || options == FormatMessagetOptions::All),
        (message_flags(source, has_args, options, can_search_system, allocate)
            & FORMAT_MESSAGE_FROM_STRING != 0) <==> source == FormatSource::Text,
        (message_flags(source, has_args, options, can_search_system, allocate)
            & FORMAT_MESSAGE_FROM_HMODULE != 0) <==> source == FormatSource::Module,
        message_flags(source, has_args, options, can_search_system, allocate) & !0x3FFFu32 == 0,
{
    let a: u32 = if allocate {
        0x100u32
    } else {
        0
    };
    let g: u32 = if has_args {
        0x2000u32
    } else {
        0
    };
    let y: u32 = if can_search_system && source == FormatSource::Module {
        0x1000u32
    } else {
        0
    };
    let s = source.flag();
    let o = options.flags();
    let f = a | s | g | o | y;
    assert(0x200u32 | 0xFFu32 == 0x2FFu32) by (bit_vector);
    assert(f & 0xFFu32 == o & 0xFFu32 && f & 0x200u32 == o & 0x200u32 && f & 0x400u32 == s
        & 0x400u32 && f & 0x800u32 == s & 0x800u32 && f & !0x3FFFu32 == 0) by (bit_vector)
        requires
            f == a | s | g | o | y,
            o == 0 || o == 0xFF || o == 0x200 || o == 0x2FF,
            s == 0x400 || s == 0x800 || s == 0x1000,
            a == 0 || a == 0x100,
            g == 0 || g == 0x2000,
            y == 0 || y == 0x1000,
    ;
    assert(0u32 & 0xFFu32 == 0 && 0xFFu32 & 0xFFu32 == 0xFF && 0x200u32 & 0xFFu32 == 0
        && 0x2FFu32 & 0xFFu32 == 0xFF) by (bit_vector);
    assert(0u32 & 0x200u32 == 0 && 0xFFu32 & 0x200u32 == 0 && 0x200u32 & 0x200u32 == 0x200
        && 0x2FFu32 & 0x200u32 == 0x200) by (bit_vector);
    assert(0x400u32 & 0x400u32 == 0x400 && 0x800u32 & 0x400u32 == 0 && 0x1000u32 & 0x400u32
        == 0) by (bit_vector);
    assert(0x400u32 & 0x800u32 == 0 && 0x800u32 & 0x800u32 == 0x800 && 0x1000u32 & 0x800u32
        == 0) by (bit_vector);
}

} // verus!
