//! The failure taxonomy: every error is fatal, reported once, with a
//! distinct exit code.

use vstd::prelude::*;

verus! {

/// The four ways an invocation can fail.
#[derive(Clone, Copy, Debug, PartialEq, Eq, Structural)]
pub enum AppError {
    /// Fewer than two positional arguments after the program name.
    UsageError,
    /// The time specification does not match the selected pattern.
    InvalidTimeFormat,
    /// The process-replacement call failed.
    ExecError,
    /// A command token contains an embedded null byte.
    EncodingError,
}

/// The exit code of each failure.
pub open spec fn spec_exit_code(e: AppError) -> u8 {
    match e {
        AppError::UsageError => 1,
        AppError::InvalidTimeFormat => 2,
        AppError::ExecError => 3,
        AppError::EncodingError => 255,
    }
}

/// The diagnostic line of each failure; the usage message names the
/// invoked program.
pub open spec fn spec_message(e: AppError, prog: Seq<char>) -> Seq<char> {
    match e {
        AppError::UsageError => "Usage: "@ + prog + " [+]<HH:MM[:SS]> <command...>"@,
        AppError::InvalidTimeFormat => "Invalid time format"@,
        AppError::ExecError => "execvp() failed"@,
        AppError::EncodingError => "CString::new failed"@,
    }
}

impl AppError {
    pub fn exit_code(&self) -> (r: u8)
        ensures
            r == spec_exit_code(*self),
    {
        match self {
            AppError::UsageError => 1,
            AppError::InvalidTimeFormat => 2,
            AppError::ExecError => 3,
            AppError::EncodingError => 255,
        }
    }

    /// The diagnostic line to print on standard error; `prog` is the
    /// invoked program's name, used by the usage message.
    pub fn message(&self, prog: &str) -> (r: String)
        ensures
            r@ == spec_message(*self, prog@),
    {
        match self {
            AppError::UsageError => String::from_str("Usage: ").concat(prog).concat(
                " [+]<HH:MM[:SS]> <command...>",
            ),
            AppError::InvalidTimeFormat => String::from_str("Invalid time format"),
            AppError::ExecError => String::from_str("execvp() failed"),
            AppError::EncodingError => String::from_str("CString::new failed"),
        }
    }
}

} // verus!
