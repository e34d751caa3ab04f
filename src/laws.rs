use crate::duration::{
    duration_result, expiry_secs, rejection_text, DurationError, DurationOutcome, Rejection,
    MAX_MINUTES,
};
use crate::expiry::encodable;
use crate::token::{all_digits, decimal_value, is_number_text, number_text_value, unsigned_digits};
use vstd::prelude::*;

verus! {

/// The character of the decimal digit `d`.
pub open spec fn digit_char(d: nat) -> char
    recommends
        d < 10,
{
    seq!['0', '1', '2', '3', '4', '5', '6', '7', '8', '9'][d as int]
}

/// How `n` is written in base ten, without sign or leading zeros.
pub open spec fn decimal_text(n: nat) -> Seq<char>
    decreases n,
{
    if n < 10 {
        seq![digit_char(n)]
    } else {
        decimal_text(n / 10).push(digit_char(n % 10))
    }
}

/// The token `<n>m`.
pub open spec fn minutes_token(n: nat) -> Seq<char> {
    decimal_text(n).push('m')
}

proof fn lemma_digit_char(d: nat)
    requires
        d < 10,
    ensures
        '0' <= digit_char(d) <= '9',
        digit_char(d) as nat - '0' as nat == d,
{
}

proof fn lemma_decimal_text(n: nat)
    ensures
        decimal_text(n).len() > 0,
        decimal_text(n)[0] != '+',
        all_digits(decimal_text(n)),
        decimal_value(decimal_text(n)) == n,
    decreases n,
{
    if n < 10 {
        lemma_digit_char(n);
        assert(decimal_text(n).drop_last() =~= Seq::<char>::empty());
        assert(decimal_value(Seq::<char>::empty()) == 0);
    } else {
        lemma_decimal_text(n / 10);
        lemma_digit_char(n % 10);
        let t = decimal_text(n);
        assert(t.drop_last() =~= decimal_text(n / 10));
        assert(decimal_value(t) == (n / 10) * 10 + n % 10);
        assert((n / 10) * 10 + n % 10 == n) by (nonlinear_arith);
        assert(all_digits(t)) by {
            assert forall|i: int| 0 <= i < t.len() implies crate::token::is_digit(#[trigger] t[i]) by {
                if i < t.len() - 1 {
                    assert(t[i] == decimal_text(n / 10)[i]);
                }
            }
        }
    }
}

proof fn lemma_minutes_token(n: nat)
    ensures
        minutes_token(n).len() > 0,
        minutes_token(n).last() == 'm',
        minutes_token(n).drop_last() == decimal_text(n),
        is_number_text(decimal_text(n)),
        number_text_value(decimal_text(n)) == n,
{
    lemma_decimal_text(n);
    assert(minutes_token(n).drop_last() =~= decimal_text(n));
    assert(unsigned_digits(decimal_text(n)) == decimal_text(n));
}

/// For every `n` from 0 to 60, the token `<n>m` gives the expiry `n` minutes
/// after now, and no rejection is sent.
pub proof fn minutes_within_limit_expire(now: u64, n: nat, r: Result<DurationOutcome, DurationError>)
    requires
        n <= MAX_MINUTES,
        encodable(expiry_secs(now as int, n as int)),
        duration_result(now as int, minutes_token(n), r),
    ensures
        r matches Ok(DurationOutcome::Expires(e)) && e@ == now + 60 * n,
{
    lemma_minutes_token(n);
}

/// For every `n` above 60, however large, the token `<n>m` is rejected
/// as too long, with the reply "1h max for timeouts rn", and no expiry is made.
pub proof fn minutes_over_limit_rejected(now: u64, n: nat, r: Result<DurationOutcome, DurationError>)
    requires
        MAX_MINUTES < n,
        duration_result(now as int, minutes_token(n), r),
    ensures
        r == Ok::<DurationOutcome, DurationError>(DurationOutcome::Rejected(Rejection::TooLong)),
        rejection_text(Rejection::TooLong) == "1h max for timeouts rn"@,
{
    lemma_minutes_token(n);
}

/// The token `1h` gives the expiry sixty minutes after now, and no rejection
/// is sent.
pub proof fn one_hour_expires(now: u64, r: Result<DurationOutcome, DurationError>)
    requires
        encodable(expiry_secs(now as int, 60)),
        duration_result(now as int, seq!['1', 'h'], r),
    ensures
        r matches Ok(DurationOutcome::Expires(e)) && e@ == now + 3600,
{
}

/// A token that does not end in `m` and is not `1h` is rejected as badly
/// formed, with the reply "Must be in format {}m or 1h".
pub proof fn other_shapes_rejected(now: u64, s: Seq<char>, r: Result<DurationOutcome, DurationError>)
    requires
        s.len() == 0 || s.last() != 'm',
        s != seq!['1', 'h'],
        duration_result(now as int, s, r),
    ensures
        r == Ok::<DurationOutcome, DurationError>(DurationOutcome::Rejected(Rejection::BadFormat)),
        rejection_text(Rejection::BadFormat) == "Must be in format {}m or 1h"@,
{
}

} // verus!
