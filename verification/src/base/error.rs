use super::text::{hex_text, push_hex_text};
use vstd::prelude::*;
use vstd::string::*;

verus! {

/// A Windows API error code together with the convention that it follows.
#[derive(Copy, Clone, PartialEq, Eq, Structural, Debug)]
pub enum Code {
    /// A `WIN32_ERROR` value; `0` (`ERROR_SUCCESS`) means success.
    Win32(u32),
    /// An `HRESULT` value; non-negative values mean success.
    HResult(i32),
    /// An `NTSTATUS` value; `0` (`STATUS_SUCCESS`) means success.
    NtStatus(i32),
}

impl Code {
    /// The code's 32 bits read as an unsigned integer.
    pub open spec fn bits(self) -> u32 {
        match self {
            Code::HResult(val) => val as u32,
            Code::NtStatus(val) => val as u32,
            Code::Win32(val) => val,
        }
    }

    /// The code's 32 bits read as a signed integer.
    pub open spec fn signed(self) -> i32 {
        match self {
            Code::HResult(val) => val,
            Code::NtStatus(val) => val,
            Code::Win32(val) => val as i32,
        }
    }

    /// Whether the code reports success under its own convention.
    pub open spec fn succeeds(self) -> bool {
        match self {
            Code::HResult(val) => val >= 0,
            Code::NtStatus(val) => val == 0,
            Code::Win32(val) => val == 0,
        }
    }

    /// The text that `Display` gives: `0x` and the code's eight hexadecimal digits.
    pub open spec fn display_text(self) -> Seq<char> {
        hex_text(self.bits())
    }

    /// The text that `Debug` gives: the convention's name and the hexadecimal code.
    pub open spec fn debug_text(self) -> Seq<char> {
        let name = match self {
            Code::HResult(_) => "HRESULT("@,
            Code::NtStatus(_) => "NTSTATUS("@,
            Code::Win32(_) => "WIN32_ERROR("@,
        };
        name + hex_text(self.bits()) + ")"@
    }

    /// Determines whether the code represents success.
    #[inline]
    pub fn is_ok(self) -> (ok: bool)
        ensures
            ok == self.succeeds(),
    {
        match self {
            Self::HResult(val) => val >= 0,
            _ => {
                let bits = self.as_u32();
                proof {
                    if let Code::NtStatus(val) = self {
                        assert((val as u32 == 0) == (val == 0)) by (bit_vector);
                    }
                }
                bits == 0
            },
        }
    }

    /// Determines whether the code represents failure; the opposite of [`is_ok`][Code::is_ok].
    #[inline]
    pub fn is_error(self) -> (error: bool)
        ensures
            error == !self.succeeds(),
    {
        !self.is_ok()
    }

    /// Creates an `HRESULT` code.
    #[inline]
    pub fn from_hresult(value: i32) -> (code: Self)
        ensures
            code == Code::HResult(value),
    {
        Self::HResult(value)
    }

    /// Creates an `NTSTATUS` code.
    #[inline]
    pub fn from_nt(value: i32) -> (code: Self)
        ensures
            code == Code::NtStatus(value),
    {
        Self::NtStatus(value)
    }

    /// Creates a `WIN32_ERROR` code.
    #[inline]
    pub fn from_win32(value: u32) -> (code: Self)
        ensures
            code == Code::Win32(value),
    {
        Self::Win32(value)
    }

    /// Gets the code's bits as an unsigned integer.
    #[inline]
    pub fn as_u32(self) -> (bits: u32)
        ensures
            bits == self.bits(),
    {
        match self {
            Code::HResult(val) => val as u32,
            Code::NtStatus(val) => val as u32,
            Code::Win32(val) => val,
        }
    }

    /// Gets the code's bits as a signed integer.
    #[inline]
    pub fn as_i32(self) -> (value: i32)
        ensures
            value == self.signed(),
    {
        match self {
            Code::HResult(val) => val,
            Code::NtStatus(val) => val,
            Code::Win32(val) => val as i32,
        }
    }

    /// Determines whether the code is an `HRESULT`.
    #[inline]
    pub fn is_hresult(self) -> (r: bool)
        ensures
            r == (self is HResult),
    {
        if let Self::HResult(_) = self {
            true
        } else {
            false
        }
    }

    /// Determines whether the code is an `NTSTATUS`.
    #[inline]
    pub fn is_nt(self) -> (r: bool)
        ensures
            r == (self is NtStatus),
    {
        if let Self::NtStatus(_) = self {
            true
        } else {
            false
        }
    }

    /// Determines whether the code is a `WIN32_ERROR`.
    #[inline]
    pub fn is_win32(self) -> (r: bool)
        ensures
            r == (self is Win32),
    {
        if let Self::Win32(_) = self {
            true
        } else {
            false
        }
    }

    /// The code formatted as `{:#010x}`, the text that `Display` shows.
    pub fn to_string(self) -> (text: String)
        ensures
            text@ == self.display_text(),
    {
        let mut text = String::new();
        push_hex_text(&mut text, self.as_u32());
        assert(text@ =~= self.display_text());
        text
    }

    /// The code with the name of its convention, the text that `Debug` shows,
    /// such as `HRESULT(0x80070005)`.
    pub fn to_debug_string(self) -> (text: String)
        ensures
            text@ == self.debug_text(),
    {
        let mut text = match self {
            Code::HResult(_) => String::from_str("HRESULT("),
            Code::NtStatus(_) => String::from_str("NTSTATUS("),
            Code::Win32(_) => String::from_str("WIN32_ERROR("),
        };
        push_hex_text(&mut text, self.as_u32());
        text.append(")");
        text
    }
}

/// The bits and the signed value of a code are two readings of the same 32 bits, each
/// constructor keeps the value it is given, and a code fails exactly when it does not
/// succeed.
pub proof fn lemma_code_readings(code: Code, unsigned: u32, signed: i32)
    ensures
        code.signed() as u32 == code.bits(),
        code.bits() as i32 == code.signed(),
        Code::Win32(unsigned).bits() == unsigned,
        Code::HResult(signed).signed() == signed,
        Code::NtStatus(signed).signed() == signed,
        Code::Win32(unsigned).succeeds() == (unsigned == 0),
        Code::NtStatus(signed).succeeds() == (signed == 0),
        Code::HResult(signed).succeeds() == (signed >= 0),
{
    match code {
        Code::HResult(v) => {
            assert((v as u32) as i32 == v) by (bit_vector);
        },
        Code::NtStatus(v) => {
            assert((v as u32) as i32 == v) by (bit_vector);
        },
        Code::Win32(v) => {
            assert((v as i32) as u32 == v) by (bit_vector);
        },
    }
}

/// Represents a Windows API error.
#[derive(Clone, Debug)]
pub struct Error {
    /// The Windows API error message
    message: String,
    /// The Windows API error code
    code: Code,
}

impl Error {
    /// Error message that is used when [`format_message`] fails to retrieve the error message
    /// using the error code.
    pub const FORMAT_MESSAGE_ERROR_MESSAGE: &'static str =
        "Failed to retrieve the error message from the system!";

    /// The error's code.
    pub closed spec fn code_value(&self) -> Code {
        self.code
    }

    /// The error's message.
    pub closed spec fn message_text(&self) -> Seq<char> {
        self.message@
    }

    /// The text that `Display` gives: the convention's name, the message and the
    /// hexadecimal code, as `HRESULT: Access is denied. (0x80070005)`.
    pub open spec fn display_text(&self) -> Seq<char> {
        let name = match self.code_value() {
            Code::HResult(_) => "HRESULT: "@,
            Code::NtStatus(_) => "NTSTATUS: "@,
            Code::Win32(_) => "WIN32_ERROR: "@,
        };
        name + self.message_text() + " ("@ + hex_text(self.code_value().bits()) + ")"@
    }

    /// Creates an error from a code and its message.
    #[inline]
    pub fn new(code: Code, message: String) -> (error: Self)
        ensures
            error.code_value() == code,
            error.message_text() == message@,
    {
        Self { code, message }
    }

    /// Creates a new [`Error`] from the specified error code and the message that the
    /// system's message table holds for it, if one was found. Without a message,
    /// [`FORMAT_MESSAGE_ERROR_MESSAGE`][Error::FORMAT_MESSAGE_ERROR_MESSAGE] stands in its
    /// place.
    pub fn from_code(code: Code, system_message: Option<String>) -> (error: Self)
        ensures
            error.code_value() == code,
            error.message_text() == match system_message {
                Some(message) => message@,
                None => Self::FORMAT_MESSAGE_ERROR_MESSAGE@,
            },
    {
        let message = match system_message {
            Some(message) => message,
            None => String::from_str(Self::FORMAT_MESSAGE_ERROR_MESSAGE),
        };
        Self::new(code, message)
    }

    /// Creates a new [`Error`] from the calling thread's last Win32 error code and the
    /// system message for it.
    #[inline]
    pub fn last_win32(last_error: u32, system_message: Option<String>) -> (error: Self)
        ensures
            error.code_value() == Code::Win32(last_error),
            error.message_text() == match system_message {
                Some(message) => message@,
                None => Self::FORMAT_MESSAGE_ERROR_MESSAGE@,
            },
    {
        Self::from_code(Code::from_win32(last_error), system_message)
    }

    /// Gets the error code.
    #[inline]
    pub fn code(&self) -> (code: i32)
        ensures
            code == self.code_value().signed(),
    {
        self.code.as_i32()
    }

    /// Gets the error code together with its convention.
    #[inline]
    pub fn kind(&self) -> (code: Code)
        ensures
            code == self.code_value(),
    {
        self.code
    }

    /// Gets the error message that is associated with from a system message-table.
    #[inline]
    pub fn message(&self) -> (message: &str)
        ensures
            message@ == self.message_text(),
    {
        self.message.as_str()
    }

    /// Determines whether the error code represents success. This method is the opposite
    /// of [`is_failure`][`Error::is_failure`].
    #[inline]
    pub fn is_success(&self) -> (success: bool)
        ensures
            success == self.code_value().succeeds(),
    {
        self.code.is_ok()
    }

    /// Determines whether the error code represents failure. This method is the opposite
    /// of [`is_success`][`Error::is_success`].
    #[inline]
    pub fn is_failure(&self) -> (failure: bool)
        ensures
            failure == !self.code_value().succeeds(),
    {
        self.code.is_error()
    }

    /// The error as `Display` shows it, such as `HRESULT: Access is denied. (0x80070005)`.
    pub fn to_string(&self) -> (text: String)
        ensures
            text@ == self.display_text(),
    {
        let mut text = match self.code {
            Code::HResult(_) => String::from_str("HRESULT: "),
            Code::NtStatus(_) => String::from_str("NTSTATUS: "),
            Code::Win32(_) => String::from_str("WIN32_ERROR: "),
        };
        text.append(self.message.as_str());
        text.append(" (");
        push_hex_text(&mut text, self.code.as_u32());
        text.append(")");
        text
    }
}

} // verus!
