use crate::expiry::{encodable, Expiry};
use crate::token::{
    is_number_text, is_unsigned_number, number_text_value, parse_unsigned, strip_last_char,
    without_suffix,
};
use vstd::prelude::*;

verus! {

/// The longest timeout that may be requested, in minutes.
pub const MAX_MINUTES: u64 = 60;

/// Why a duration token was turned down with a message to its author.
#[derive(Clone, Copy, Debug, PartialEq, Eq, Structural)]
pub enum Rejection {
    /// More minutes than allowed.
    TooLong,
    /// Neither `<number>m` nor `1h`.
    BadFormat,
}

/// Why a duration token could not be read at all.
#[derive(Clone, Copy, Debug, PartialEq, Eq, Structural)]
pub enum DurationError {
    /// The text before the final `m` is not an unsigned number.
    NotANumber,
    /// The expiry lies beyond what a platform timestamp can hold.
    OutOfRange,
}

/// What a well-read duration token leads to.
#[derive(Clone, Copy)]
pub enum DurationOutcome {
    /// The timeout ends at this instant.
    Expires(Expiry),
    /// The author is told why, privately, and nothing else happens.
    Rejected(Rejection),
}

/// How a duration token reads, before the clock is consulted.
pub enum Reading {
    /// A timeout of this many minutes, at most `MAX_MINUTES`.
    Minutes(u64),
    /// `<n>m` with `n` above `MAX_MINUTES`.
    TooLong,
    /// Neither `<n>m` nor `1h`.
    BadFormat,
    /// A final `m` after text that is not an unsigned number.
    NotANumber,
}

/// How the token `s` reads: `<number>m` asks for that many minutes (at most
/// `MAX_MINUTES`), `1h` for sixty, and anything else is turned down.
pub open spec fn reading_of(s: Seq<char>) -> Reading {
    match without_suffix(s, 'm') {
        Some(digits) => if !is_number_text(digits) {
            Reading::NotANumber
        } else if number_text_value(digits) > MAX_MINUTES {
            Reading::TooLong
        } else {
            Reading::Minutes(number_text_value(digits) as u64)
        },
        None => if s == seq!['1', 'h'] {
            Reading::Minutes(60)
        } else {
            Reading::BadFormat
        },
    }
}

/// The Unix second at which a timeout of `minutes` started at `now` ends.
pub open spec fn expiry_secs(now: int, minutes: int) -> int {
    now + 60 * minutes
}

/// The private reply that tells the author why a token was turned down.
pub open spec fn rejection_text(why: Rejection) -> Seq<char> {
    match why {
        Rejection::TooLong => "1h max for timeouts rn"@,
        Rejection::BadFormat => "Must be in format {}m or 1h"@,
    }
}

/// Whether `r` is what reading the token `s` at Unix second `now` gives: for
/// a number of minutes, the expiry that many minutes after `now` when a
/// platform timestamp can hold it and `OutOfRange` otherwise; a rejection or
/// an error as the reading says.
pub open spec fn duration_result(
    now: int,
    s: Seq<char>,
    r: Result<DurationOutcome, DurationError>,
) -> bool {
    match reading_of(s) {
        Reading::Minutes(m) => if encodable(expiry_secs(now, m as int)) {
            r matches Ok(DurationOutcome::Expires(e)) && e@ == expiry_secs(now, m as int)
        } else {
            r == Err::<DurationOutcome, DurationError>(DurationError::OutOfRange)
        },
        Reading::TooLong => r == Ok::<DurationOutcome, DurationError>(
            DurationOutcome::Rejected(Rejection::TooLong),
        ),
        Reading::BadFormat => r == Ok::<DurationOutcome, DurationError>(
            DurationOutcome::Rejected(Rejection::BadFormat),
        ),
        Reading::NotANumber => r == Err::<DurationOutcome, DurationError>(
            DurationError::NotANumber,
        ),
    }
}

impl Rejection {
    /// The private reply that tells the author why the token was turned down.
    pub fn message(&self) -> (r: &'static str)
        ensures
            r@ == rejection_text(*self),
    {
        match self {
            Rejection::TooLong => "1h max for timeouts rn",
            Rejection::BadFormat => "Must be in format {}m or 1h",
        }
    }
}

/// Whether `s` is exactly `1h`.
fn is_one_hour(s: &str) -> (r: bool)
    ensures
        r <==> s@ == seq!['1', 'h'],
{
    if s.unicode_len() != 2 {
        return false;
    }
    let r = s.get_char(0) == '1' && s.get_char(1) == 'h';
    assert(r ==> s@ =~= seq!['1', 'h']);
    r
}

/// Reads the duration token `duration` of a timeout that starts at Unix
/// second `now_secs`.
///
/// `<n>m` with `n` at most sixty, and `1h`, give the instant `n` (or sixty)
/// minutes after `now_secs`; a larger `n`, however many digits it has, is
/// rejected as too long; a token of
/// any other shape is rejected as badly formed. The text before a final `m`
/// that is not an unsigned number is an error, not a rejection, and so is an
/// expiry that no platform timestamp can hold.
pub fn parse_duration(now_secs: u64, duration: &str) -> (r: Result<DurationOutcome, DurationError>)
    ensures
        duration_result(now_secs as int, duration@, r),
{
    let minutes: u64 = match strip_last_char(duration, 'm') {
        Some(digits) => match parse_unsigned(digits) {
            Some(m) => {
                if m > MAX_MINUTES {
                    return Ok(DurationOutcome::Rejected(Rejection::TooLong));
                }
                m
            },
            None => {
                if is_unsigned_number(digits) {
                    return Ok(DurationOutcome::Rejected(Rejection::TooLong));
                }
                return Err(DurationError::NotANumber);
            },
        },
        None => {
            if !is_one_hour(duration) {
                return Ok(DurationOutcome::Rejected(Rejection::BadFormat));
            }
            60
        },
    };
    if now_secs > u64::MAX - 60 * minutes {
        return Err(DurationError::OutOfRange);
    }
    match Expiry::from_unix_secs(now_secs + 60 * minutes) {
        Some(e) => Ok(DurationOutcome::Expires(e)),
        None => Err(DurationError::OutOfRange),
    }
}

} // verus!
