//! Delay-then-exec planning library.
//!
//! A small utility waits until a given clock time (or for a given offset)
//! and then replaces itself with a command. This crate holds the verified
//! core of that utility: parsing the time specification, computing how many
//! seconds to wait, validating the command tokens, and producing the exact
//! messages the program prints. The unverified binary around it only reads
//! the arguments, sleeps, and performs the process replacement.

pub mod clock;
pub mod command;
pub mod decimal;
pub mod error;
pub mod plan;
pub mod time;
pub mod wait;

use vstd::prelude::*;

verus! {

/// Relies on std's `String::push`, which appends the given character to
/// the end of the string.
pub assume_specification[ String::push ](s: &mut String, ch: char)
    ensures
        final(s)@ == old(s)@.push(ch),
;

/// A time of day with second precision: hour in 0..=23, minute and second
/// in 0..=59.
#[derive(Clone, Copy, Debug, PartialEq, Eq, Structural)]
pub struct TimeOfDay {
    pub hour: u8,
    pub minute: u8,
    pub second: u8,
}

impl TimeOfDay {
    /// The ranges each field must lie in.
    pub open spec fn wf(self) -> bool {
        self.hour <= 23 && self.minute <= 59 && self.second <= 59
    }

    /// Seconds since midnight, in 0..86400.
    pub open spec fn spec_seconds_from_midnight(self) -> int {
        self.hour * 3600 + self.minute * 60 + self.second
    }

    pub fn seconds_from_midnight(&self) -> (r: u32)
        requires
            self.wf(),
        ensures
            r == self.spec_seconds_from_midnight(),
            r < 86400,
    {
        self.hour as u32 * 3600 + self.minute as u32 * 60 + self.second as u32
    }
}

} // verus!
