use crate::base::text::{dec_text, push_dec_text};
use vstd::prelude::*;
use vstd::string::*;

verus! {

/// A `FILETIME`: a count of 100-nanosecond intervals in two 32-bit halves.
#[derive(Debug, Default, Copy, Clone, PartialEq, Eq, Structural)]
pub struct FileTime {
    pub low_date_time: u32,
    pub high_date_time: u32,
}

impl FileTime {
    /// The count of 100-nanosecond intervals.
    pub open spec fn intervals(self) -> int {
        self.high_date_time as int * 0x1_0000_0000 + self.low_date_time as int
    }

    /// The 64-bit count of 100-nanosecond intervals.
    pub fn to_intervals(&self) -> (intervals: u64)
        ensures
            intervals == self.intervals(),
    {
        self.high_date_time as u64 * 0x1_0000_0000 + self.low_date_time as u64
    }

    /// The text that the debug string of a file time gives.
    pub open spec fn debug_text(self) -> Seq<char> {
        "high_date_time: "@ + dec_text(self.high_date_time as nat) + ", low_date_time: "@
            + dec_text(self.low_date_time as nat)
    }

    /// The two halves in decimal: `high_date_time: <high>, low_date_time: <low>`.
    pub fn to_debug_string(&self) -> (text: String)
        ensures
            text@ == self.debug_text(),
    {
        let mut text = String::from_str("high_date_time: ");
        push_dec_text(&mut text, self.high_date_time);
        text.append(", low_date_time: ");
        push_dec_text(&mut text, self.low_date_time);
        text
    }

    /// The whole milliseconds of the time span, the `Duration` that `To<Duration>` gives.
    pub fn to_millis(&self) -> (millis: u64)
        ensures
            millis == self.intervals() / 10_000,
    {
        self.to_intervals() / 10_000
    }
}

} // verus!
