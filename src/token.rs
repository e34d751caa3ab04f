use vstd::prelude::*;
use vstd::string::*;

verus! {

/// Whether `c` is one of the ASCII digits `0` to `9`.
pub open spec fn is_digit(c: char) -> bool {
    '0' <= c && c <= '9'
}

/// Whether every character of `s` is an ASCII digit.
pub open spec fn all_digits(s: Seq<char>) -> bool {
    forall|i: int| 0 <= i < s.len() ==> is_digit(#[trigger] s[i])
}

/// The number that a string of ASCII digits writes in base ten.
pub open spec fn decimal_value(s: Seq<char>) -> nat
    decreases s.len(),
{
    if s.len() == 0 {
        0
    } else {
        decimal_value(s.drop_last()) * 10 + (s.last() as nat - '0' as nat) as nat
    }
}

/// The digits of an unsigned integer's text: the text without one leading
/// `+`, if there is one.
pub open spec fn unsigned_digits(s: Seq<char>) -> Seq<char> {
    if s.len() > 0 && s[0] == '+' {
        s.drop_first()
    } else {
        s
    }
}

/// Whether `s` writes a non-negative whole number: an optional `+` and then
/// one or more ASCII digits, as many as there are.
pub open spec fn is_number_text(s: Seq<char>) -> bool {
    let d = unsigned_digits(s);
    &&& d.len() > 0
    &&& all_digits(d)
}

/// The value of the number written as `s`.
pub open spec fn number_text_value(s: Seq<char>) -> nat {
    decimal_value(unsigned_digits(s))
}

/// Whether `s` is the text of a `u64`: a number whose value is at most
/// `u64::MAX`.
pub open spec fn is_u64_text(s: Seq<char>) -> bool {
    is_number_text(s) && number_text_value(s) <= u64::MAX
}

proof fn lemma_prefix_value_le(t: Seq<char>, k: int)
    requires
        0 <= k <= t.len(),
        all_digits(t),
    ensures
        decimal_value(t.subrange(0, k)) <= decimal_value(t),
    decreases t.len(),
{
    if k < t.len() {
        let u = t.drop_last();
        assert(u.subrange(0, k) =~= t.subrange(0, k));
        assert(all_digits(u)) by {
            assert forall|x: int| 0 <= x < u.len() implies is_digit(#[trigger] u[x]) by {
                assert(u[x] == t[x]);
            }
        }
        lemma_prefix_value_le(u, k);
        assert(is_digit(t[t.len() - 1]));
    } else {
        assert(t.subrange(0, k) =~= t);
    }
}

/// The `u64` written as `s` (an optional `+` and then ASCII digits), or
/// `None` when `s` is not such a text or its value exceeds `u64::MAX`.
pub fn parse_unsigned(s: &str) -> (r: Option<u64>)
    ensures
        r is Some <==> is_u64_text(s@),
        r matches Some(v) ==> v == number_text_value(s@),
{
    let n: usize = s.unicode_len();
    let mut i: usize = 0;
    if n > 0 && s.get_char(0) == '+' {
        i = 1;
    }
    let start: usize = i;
    let ghost digits = unsigned_digits(s@);
    assert(digits =~= s@.subrange(start as int, n as int));
    if i >= n {
        return None;
    }
    let mut acc: u64 = 0;
    assert(s@.subrange(start as int, start as int) =~= Seq::<char>::empty());
    while i < n
        invariant
            start <= i <= n,
            n == s@.len(),
            digits == unsigned_digits(s@),
            digits =~= s@.subrange(start as int, n as int),
            forall|j: int| start <= j < i ==> is_digit(#[trigger] s@[j]),
            acc == decimal_value(s@.subrange(start as int, i as int)),
        decreases n - i,
    {
        let c = s.get_char(i);
        if !('0' <= c && c <= '9') {
            assert(digits[i - start] == c);
            return None;
        }
        let d: u64 = (c as u32 - '0' as u32) as u64;
        let ghost next = s@.subrange(start as int, i + 1);
        assert(next.drop_last() =~= s@.subrange(start as int, i as int));
        assert(decimal_value(next) == acc * 10 + d);
        if acc > (u64::MAX - d) / 10 {
            assert(acc * 10 + d > u64::MAX) by (nonlinear_arith)
                requires
                    acc > (u64::MAX - d) / 10,
                    d <= 9,
            ;
            proof {
                if all_digits(digits) {
                    let k = i + 1 - start;
                    assert(digits.subrange(0, k) =~= next);
                    lemma_prefix_value_le(digits, k);
                }
            }
            return None;
        }
        assert(acc * 10 + d <= u64::MAX) by (nonlinear_arith)
            requires
                acc <= (u64::MAX - d) / 10,
                d <= 9,
        ;
        acc = acc * 10 + d;
        i = i + 1;
    }
    assert(all_digits(digits)) by {
        assert forall|k: int| 0 <= k < digits.len() implies is_digit(#[trigger] digits[k]) by {
            assert(digits[k] == s@[k + start]);
        }
    }
    assert(s@.subrange(start as int, n as int) =~= digits);
    Some(acc)
}

/// Whether `s` writes a non-negative whole number (an optional `+` and then
/// one or more ASCII digits), however large.
pub fn is_unsigned_number(s: &str) -> (r: bool)
    ensures
        r == is_number_text(s@),
{
    let n: usize = s.unicode_len();
    let mut i: usize = 0;
    if n > 0 && s.get_char(0) == '+' {
        i = 1;
    }
    let start: usize = i;
    assert(unsigned_digits(s@) =~= s@.subrange(start as int, n as int));
    if i >= n {
        return false;
    }
    while i < n
        invariant
            start <= i <= n,
            n == s@.len(),
            unsigned_digits(s@) =~= s@.subrange(start as int, n as int),
            forall|j: int| start <= j < i ==> is_digit(#[trigger] s@[j]),
        decreases n - i,
    {
        let c = s.get_char(i);
        if !('0' <= c && c <= '9') {
            assert(unsigned_digits(s@)[i - start] == c);
            return false;
        }
        i = i + 1;
    }
    assert forall|k: int| 0 <= k < unsigned_digits(s@).len() implies is_digit(
        #[trigger] unsigned_digits(s@)[k],
    ) by {
        assert(unsigned_digits(s@)[k] == s@[k + start]);
    }
    true
}

/// `s` without its last character, when that character is `c`.
pub open spec fn without_suffix(s: Seq<char>, c: char) -> Option<Seq<char>> {
    if s.len() > 0 && s.last() == c {
        Some(s.drop_last())
    } else {
        None
    }
}

/// `s` without a final `c`, or `None` when `s` does not end with `c`.
pub fn strip_last_char(s: &str, c: char) -> (r: Option<&str>)
    ensures
        without_suffix(s@, c) matches Some(t) ==> r matches Some(u) && u@ == t,
        without_suffix(s@, c) is None ==> r is None,
{
    let n: usize = s.unicode_len();
    if n == 0 {
        return None;
    }
    if s.get_char(n - 1) != c {
        return None;
    }
    let rest = s.substring_char(0, n - 1);
    assert(rest@ =~= s@.drop_last());
    Some(rest)
}

} // verus!
