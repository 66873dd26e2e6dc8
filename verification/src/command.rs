//! Validation of command tokens.
//!
//! The process-replacement primitive takes null-terminated strings, so a
//! token with an embedded null byte cannot be passed on. In UTF-8 a null
//! byte occurs exactly where the null character does, so the check works
//! on characters.

use vstd::prelude::*;

verus! {

/// `s` can be turned into a null-terminated string.
pub open spec fn token_ok(s: Seq<char>) -> bool {
    !s.contains('\0')
}

/// Every command token of `args` (everything after the program name and
/// the time specification) is free of null characters.
pub open spec fn command_ok(args: Seq<String>) -> bool {
    forall|i: int| 2 <= i < args.len() ==> token_ok(#[trigger] args[i]@)
}

/// Whether `s` contains a null character.
pub fn has_nul(s: &str) -> (r: bool)
    ensures
        r == !token_ok(s@),
{
    let n = s.unicode_len();
    let mut i: usize = 0;
    while i < n
        invariant
            n == s@.len(),
            i <= n,
            forall|j: int| 0 <= j < i ==> s@[j] != '\0',
        decreases n - i,
    {
        if s.get_char(i) == '\0' {
            return true;
        }
        i = i + 1;
    }
    false
}

/// Checks every command token of `args` for embedded null characters.
pub fn check_command(args: &Vec<String>) -> (r: bool)
    requires
        args@.len() >= 2,
    ensures
        r == command_ok(args@),
{
    let n = args.len();
    let mut i: usize = 2;
    while i < n
        invariant
            n == args@.len(),
            2 <= i <= n,
            forall|j: int| 2 <= j < i ==> token_ok(#[trigger] args@[j]@),
        decreases n - i,
    {
        if has_nul(args[i].as_str()) {
            return false;
        }
        i = i + 1;
    }
    true
}

} // verus!
