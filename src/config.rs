//! Parsing of the numeric settings given on the command line.

use core::num::ParseIntError;
use std::time::Duration;
use vstd::prelude::*;

verus! {

#[verifier::external_type_specification]
#[verifier::external_body]
pub struct ExParseIntError(core::num::ParseIntError);

/// `c` is one of the ASCII digits `0` to `9`.
pub open spec fn is_digit(c: char) -> bool {
    '0' <= c && c <= '9'
}

/// The value of a string of decimal digits, most significant first.
pub open spec fn digits_value(s: Seq<char>) -> nat
    decreases s.len(),
{
    if s.len() == 0 {
        0
    } else {
        digits_value(s.drop_last()) * 10 + ((s.last() as u32 - '0' as u32) as nat)
    }
}

/// The digits of an unsigned number's text: the text without a leading `+`.
pub open spec fn unsigned_digits(s: Seq<char>) -> Seq<char> {
    if s.len() > 0 && s[0] == '+' {
        s.drop_first()
    } else {
        s
    }
}

/// `s` is the decimal text of a `u64`: an optional `+`, then one or more
/// digits, whose value fits 64 bits.
pub open spec fn is_u64_text(s: Seq<char>) -> bool {
    let d = unsigned_digits(s);
    &&& d.len() > 0
    &&& forall|i: int| 0 <= i < d.len() ==> is_digit(#[trigger] d[i])
    &&& digits_value(d) <= u64::MAX
}

/// The duration of `ms` milliseconds.
pub uninterp spec fn millis_duration(ms: u64) -> Duration;

/// Relies on u64's `FromStr` (`str::parse`): an optional `+` followed by
/// decimal digits whose value fits; any other text is an error.
#[verifier::external_body]
fn parse_u64(s: &str) -> (r: Result<u64, ParseIntError>)
    ensures
        r is Ok <==> is_u64_text(s@),
        r is Ok ==> r->Ok_0 as nat == digits_value(unsigned_digits(s@)),
{
    s.parse::<u64>()
}

/// Relies on std::time::Duration::from_millis: the duration of `ms` milliseconds.
#[verifier::external_body]
fn duration_from_millis(ms: u64) -> (r: Duration)
    ensures
        r == millis_duration(ms),
{
    Duration::from_millis(ms)
}

/// The duration whose length in milliseconds `arg` gives in decimal.
pub fn parse_duration_ms(arg: &str) -> (r: Result<Duration, ParseIntError>)
    ensures
        r is Ok <==> is_u64_text(arg@),
        r is Ok ==> r->Ok_0 == millis_duration(digits_value(unsigned_digits(arg@)) as u64),
{
    match parse_u64(arg) {
        Ok(ms) => Ok(duration_from_millis(ms)),
        Err(e) => Err(e),
    }
}

} // verus!
