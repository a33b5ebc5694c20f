use crate::base::text::{dec_text, push_dec_text};
use vstd::prelude::*;
use vstd::string::*;

verus! {

/// Represents a Win32 error.
#[derive(Debug, Clone)]
pub struct Win32Error {
    /// The Win32 error code
    code: u32,
    message: String,
}

impl Win32Error {
    /// Error message that is used when [`format_message`] fails to retrieve the error message
    /// using the error code.
    pub const FORMAT_MESSAGE_ERROR_MESSAGE: &'static str = "Failed to retrieve the error message!";

    /// The error's code.
    pub closed spec fn code_value(&self) -> u32 {
        self.code
    }

    /// The error's message.
    pub closed spec fn message_text(&self) -> Seq<char> {
        self.message@
    }

    /// The text that `Display` gives: `Win32Error: <decimal code> -> <message>`.
    pub open spec fn display_text(&self) -> Seq<char> {
        "Win32Error: "@ + dec_text(self.code_value() as nat) + " -> "@ + self.message_text()
    }

    /// Creates a new [`Win32Error`] from the specified error code and the message that the
    /// system's message table holds for it, if one was found. Without a message,
    /// [`FORMAT_MESSAGE_ERROR_MESSAGE`][Win32Error::FORMAT_MESSAGE_ERROR_MESSAGE] stands in
    /// its place.
    pub fn from_code(code: u32, system_message: Option<String>) -> (error: Self)
        ensures
            error.code_value() == code,
            error.message_text() == match system_message {
                Some(message) => message@,
                None => Self::FORMAT_MESSAGE_ERROR_MESSAGE@,
            },
    {
        let message = match system_message {
            Some(message) => message,
            None => String::from_str(Self::FORMAT_MESSAGE_ERROR_MESSAGE),
        };
        Self { code, message }
    }

    /// Gets the error code.
    #[inline]
    pub fn code(&self) -> (code: u32)
        ensures
            code == self.code_value(),
    {
        self.code
    }

    /// Gets the error message that is associated with from a system message-table.
    #[inline]
    pub fn message(&self) -> (message: &str)
        ensures
            message@ == self.message_text(),
    {
        self.message.as_str()
    }

    /// Determines whether the error code is `ERROR_SUCCESS`. This method is the opposite of
    /// [`is_failure`][`Win32Error::is_failure`].
    #[inline]
    pub fn is_success(&self) -> (success: bool)
        ensures
            success == (self.code_value() == 0),
    {
        self.code == 0
    }

    /// Determines whether the error code is not `ERROR_SUCCESS`. This method is the opposite
    /// of [`is_success`][`Win32Error::is_success`].
    #[inline]
    pub fn is_failure(&self) -> (failure: bool)
        ensures
            failure == (self.code_value() != 0),
    {
        !self.is_success()
    }

    /// Creates the [`Win32Error`] of the calling thread's last error code and its message.
    #[inline]
    pub fn get_last(last_error: u32, system_message: Option<String>) -> (error: Self)
        ensures
            error.code_value() == last_error,
            error.message_text() == match system_message {
                Some(message) => message@,
                None => Self::FORMAT_MESSAGE_ERROR_MESSAGE@,
            },
    {
        Self::from_code(last_error, system_message)
    }

    /// The error as `Display` shows it: `Win32Error: <decimal code> -> <message>`.
    pub fn to_string(&self) -> (text: String)
        ensures
            text@ == self.display_text(),
    {
        let mut text = String::from_str("Win32Error: ");
        push_dec_text(&mut text, self.code);
        text.append(" -> ");
        text.append(self.message.as_str());
        text
    }
}

} // verus!
