//! Parsing and formatting of `HH:MM` / `HH:MM:SS` time specifications.

use vstd::prelude::*;
use crate::TimeOfDay;
use crate::decimal::{digit_char, spec_digit_char};

verus! {

/// A parsed time specification: an absolute wall-clock target, or an
/// offset (marked with a leading `+`) measured from the moment of
/// invocation.
#[derive(Clone, Copy, Debug, PartialEq, Eq, Structural)]
pub enum TimeSpec {
    Absolute(TimeOfDay),
    Relative(TimeOfDay),
}

impl TimeSpec {
    /// The carried time of day is well formed.
    pub open spec fn wf(self) -> bool {
        match self {
            TimeSpec::Absolute(a) => a.wf(),
            TimeSpec::Relative(d) => d.wf(),
        }
    }
}

/// Whether `c` is an ASCII decimal digit.
pub open spec fn is_digit(c: char) -> bool {
    48 <= c as u32 <= 57
}

/// Numeric value of the digit `c`.
pub open spec fn digit_val(c: char) -> int {
    c as u32 - 48
}

/// Value of the two-digit group at positions `i`, `i + 1`.
pub open spec fn two_digit_val(s: Seq<char>, i: int) -> int {
    digit_val(s[i]) * 10 + digit_val(s[i + 1])
}

/// `s` matches `HH:MM` exactly: five characters, digits around a colon,
/// hour at most 23, minute at most 59.
pub open spec fn valid_hm(s: Seq<char>) -> bool {
    &&& s.len() == 5
    &&& is_digit(s[0]) && is_digit(s[1]) && is_digit(s[3]) && is_digit(s[4])
    &&& s[2] == ':'
    &&& two_digit_val(s, 0) <= 23
    &&& two_digit_val(s, 3) <= 59
}

/// `s` matches `HH:MM:SS` exactly: eight characters, with the second
/// colon and a seconds group at most 59.
pub open spec fn valid_hms(s: Seq<char>) -> bool {
    &&& s.len() == 8
    &&& is_digit(s[0]) && is_digit(s[1]) && is_digit(s[3]) && is_digit(s[4])
    &&& is_digit(s[6]) && is_digit(s[7])
    &&& s[2] == ':' && s[5] == ':'
    &&& two_digit_val(s, 0) <= 23
    &&& two_digit_val(s, 3) <= 59
    &&& two_digit_val(s, 6) <= 59
}

/// The time of day written by a valid `HH:MM` string; seconds default to 0.
pub open spec fn time_of_hm(s: Seq<char>) -> TimeOfDay {
    TimeOfDay {
        hour: two_digit_val(s, 0) as u8,
        minute: two_digit_val(s, 3) as u8,
        second: 0,
    }
}

/// The time of day written by a valid `HH:MM:SS` string.
pub open spec fn time_of_hms(s: Seq<char>) -> TimeOfDay {
    TimeOfDay {
        hour: two_digit_val(s, 0) as u8,
        minute: two_digit_val(s, 3) as u8,
        second: two_digit_val(s, 6) as u8,
    }
}

/// A leading `+` marks the specification as relative.
pub open spec fn spec_is_relative(s: Seq<char>) -> bool {
    s.len() > 0 && s[0] == '+'
}

/// The specification with its leading `+` marker, if any, removed.
pub open spec fn spec_body(s: Seq<char>) -> Seq<char> {
    if spec_is_relative(s) {
        s.skip(1)
    } else {
        s
    }
}

/// The whole specification is well formed: after stripping the marker,
/// anything longer than five characters must match `HH:MM:SS`, anything
/// else must match `HH:MM`. The length rule selects the pattern; there is
/// no fallback to the other one.
pub open spec fn valid_time_spec(s: Seq<char>) -> bool {
    if spec_body(s).len() > 5 {
        valid_hms(spec_body(s))
    } else {
        valid_hm(spec_body(s))
    }
}

/// The `TimeSpec` a valid specification string denotes.
pub open spec fn spec_time_spec(s: Seq<char>) -> TimeSpec {
    let t = if spec_body(s).len() > 5 {
        time_of_hms(spec_body(s))
    } else {
        time_of_hm(spec_body(s))
    };
    if spec_is_relative(s) {
        TimeSpec::Relative(t)
    } else {
        TimeSpec::Absolute(t)
    }
}

/// Reads the digit `c`; fails on any other character.
fn read_digit(c: char) -> (r: Option<u8>)
    ensures
        r is Some <==> is_digit(c),
        r is Some ==> r->0 == digit_val(c) && r->0 <= 9,
{
    let v = c as u32;
    if 48 <= v && v <= 57 {
        Some((v - 48) as u8)
    } else {
        None
    }
}

/// Reads the two-digit group of `s` at positions `i`, `i + 1`.
fn read_two_digits(s: &str, i: usize) -> (r: Option<u8>)
    requires
        i + 1 < s@.len(),
        i <= 6,
    ensures
        r is Some <==> is_digit(s@[i as int]) && is_digit(s@[i + 1]),
        r is Some ==> r->0 == two_digit_val(s@, i as int) && r->0 <= 99,
{
    let hi = read_digit(s.get_char(i));
    let lo = read_digit(s.get_char(i + 1));
    match (hi, lo) {
        (Some(h), Some(l)) => Some(h * 10 + l),
        _ => None,
    }
}

/// Parses the body of a specification (marker already stripped) as
/// `HH:MM`, returning the time it writes, with seconds 0.
fn parse_hm(s: &str) -> (r: Option<TimeOfDay>)
    ensures
        r is Some <==> valid_hm(s@),
        r is Some ==> r->0 == time_of_hm(s@) && r->0.wf(),
{
    if s.unicode_len() != 5 {
        return None;
    }
    if s.get_char(2) != ':' {
        return None;
    }
    let hour = match read_two_digits(s, 0) {
        Some(h) => h,
        None => {
            return None;
        },
    };
    let minute = match read_two_digits(s, 3) {
        Some(m) => m,
        None => {
            return None;
        },
    };
    if hour > 23 || minute > 59 {
        return None;
    }
    Some(TimeOfDay { hour, minute, second: 0 })
}

/// Parses the body of a specification (marker already stripped) as
/// `HH:MM:SS`.
fn parse_hms(s: &str) -> (r: Option<TimeOfDay>)
    ensures
        r is Some <==> valid_hms(s@),
        r is Some ==> r->0 == time_of_hms(s@) && r->0.wf(),
{
    if s.unicode_len() != 8 {
        return None;
    }
    if s.get_char(2) != ':' || s.get_char(5) != ':' {
        return None;
    }
    let hour = match read_two_digits(s, 0) {
        Some(h) => h,
        None => {
            return None;
        },
    };
    let minute = match read_two_digits(s, 3) {
        Some(m) => m,
        None => {
            return None;
        },
    };
    let second = match read_two_digits(s, 6) {
        Some(x) => x,
        None => {
            return None;
        },
    };
    if hour > 23 || minute > 59 || second > 59 {
        return None;
    }
    Some(TimeOfDay { hour, minute, second })
}

/// Parses a raw time-specification string: an optional `+` marker, then
/// `HH:MM` or, when more than five characters remain, `HH:MM:SS`.
pub fn parse_time_spec(s: &str) -> (r: Option<TimeSpec>)
    ensures
        r is Some <==> valid_time_spec(s@),
        r is Some ==> r->0 == spec_time_spec(s@) && r->0.wf(),
{
    let len = s.unicode_len();
    let relative = len > 0 && s.get_char(0) == '+';
    let body = if relative {
        s.substring_char(1, len)
    } else {
        s
    };
    let body_len = if relative { len - 1 } else { len };
    assert(body@ =~= spec_body(s@));
    let time = if body_len > 5 {
        parse_hms(body)
    } else {
        parse_hm(body)
    };
    match time {
        Some(t) => {
            if relative {
                Some(TimeSpec::Relative(t))
            } else {
                Some(TimeSpec::Absolute(t))
            }
        },
        None => None,
    }
}

/// The `HH:MM` writing of `t`, seconds dropped.
pub open spec fn spec_format_hm(t: TimeOfDay) -> Seq<char> {
    seq![
        spec_digit_char(t.hour as int / 10),
        spec_digit_char(t.hour as int % 10),
        ':',
        spec_digit_char(t.minute as int / 10),
        spec_digit_char(t.minute as int % 10),
    ]
}

/// The `HH:MM:SS` writing of `t`.
pub open spec fn spec_format_hms(t: TimeOfDay) -> Seq<char> {
    spec_format_hm(t) + seq![
        ':',
        spec_digit_char(t.second as int / 10),
        spec_digit_char(t.second as int % 10),
    ]
}

/// Writes `t` as `HH:MM`, dropping the seconds.
pub fn format_hm(t: &TimeOfDay) -> (r: String)
    requires
        t.wf(),
    ensures
        r@ == spec_format_hm(*t),
{
    let mut r = String::new();
    r.push(digit_char(t.hour / 10));
    r.push(digit_char(t.hour % 10));
    r.push(':');
    r.push(digit_char(t.minute / 10));
    r.push(digit_char(t.minute % 10));
    proof {
        assert(r@ =~= spec_format_hm(*t));
    }
    r
}

/// Writes `t` as `HH:MM:SS`.
pub fn format_hms(t: &TimeOfDay) -> (r: String)
    requires
        t.wf(),
    ensures
        r@ == spec_format_hms(*t),
{
    let mut r = format_hm(t);
    r.push(':');
    r.push(digit_char(t.second / 10));
    r.push(digit_char(t.second % 10));
    proof {
        assert(r@ =~= spec_format_hms(*t));
    }
    r
}

/// A digit character is recovered from its value.
proof fn lemma_digit_char_of_val(c: char)
    requires
        is_digit(c),
    ensures
        spec_digit_char(digit_val(c)) == c,
{
}

/// Parsing a valid `HH:MM` string and writing the parsed time back as
/// `HH:MM` reproduces the string exactly.
pub proof fn lemma_parse_format_hm_identity(s: Seq<char>)
    requires
        valid_hm(s),
    ensures
        spec_format_hm(time_of_hm(s)) == s,
{
    lemma_digit_char_of_val(s[0]);
    lemma_digit_char_of_val(s[1]);
    lemma_digit_char_of_val(s[3]);
    lemma_digit_char_of_val(s[4]);
    assert(spec_format_hm(time_of_hm(s)) =~= s);
}

/// Parsing a valid `HH:MM:SS` string and writing the parsed time back as
/// `HH:MM:SS` reproduces the string exactly: in particular the seconds
/// group is preserved.
pub proof fn lemma_parse_format_hms_identity(s: Seq<char>)
    requires
        valid_hms(s),
    ensures
        time_of_hms(s).second == two_digit_val(s, 6),
        spec_format_hms(time_of_hms(s)) == s,
{
    lemma_digit_char_of_val(s[0]);
    lemma_digit_char_of_val(s[1]);
    lemma_digit_char_of_val(s[3]);
    lemma_digit_char_of_val(s[4]);
    lemma_digit_char_of_val(s[6]);
    lemma_digit_char_of_val(s[7]);
    assert(spec_format_hms(time_of_hms(s)) =~= s);
}

/// A valid `HH:MM` body means the same time as the body with `:00`
/// appended: the seconds merely default to zero.
pub proof fn lemma_hm_extends_to_hms(s: Seq<char>)
    requires
        valid_hm(s),
    ensures
        valid_hms(s + seq![':', '0', '0']),
        time_of_hms(s + seq![':', '0', '0']) == time_of_hm(s),
{
    let s2 = s + seq![':', '0', '0'];
    assert(s2[0] == s[0] && s2[1] == s[1] && s2[2] == s[2] && s2[3] == s[3] && s2[4] == s[4]);
    assert(s2[5] == ':' && s2[6] == '0' && s2[7] == '0');
}

/// A whole `HH:MM` specification, relative marker and all, means the same
/// as the specification with `:00` appended.
pub proof fn lemma_time_spec_extends_to_seconds(s: Seq<char>)
    requires
        valid_time_spec(s),
        spec_body(s).len() == 5,
    ensures
        valid_time_spec(s + seq![':', '0', '0']),
        spec_time_spec(s + seq![':', '0', '0']) == spec_time_spec(s),
{
    let s2 = s + seq![':', '0', '0'];
    assert(spec_body(s2) =~= spec_body(s) + seq![':', '0', '0']);
    lemma_hm_extends_to_hms(spec_body(s));
}

} // verus!
