use mute_bot::{
    is_unsigned_number, parse_duration, parse_unsigned, strip_last_char, DurationError, DurationOutcome, Rejection,
    MAX_TIMESTAMP_SECS,
};

const NOW: u64 = 1_700_000_000;

fn expiry_of(r: Result<DurationOutcome, DurationError>) -> i64 {
    match r {
        Ok(DurationOutcome::Expires(e)) => {
            assert_eq!(e.stamp().unix_timestamp(), e.unix_secs());
            e.unix_secs()
        }
        Ok(DurationOutcome::Rejected(why)) => panic!("rejected: {:?}", why),
        Err(e) => panic!("error: {:?}", e),
    }
}

fn rejection_of(r: Result<DurationOutcome, DurationError>) -> Rejection {
    match r {
        Ok(DurationOutcome::Rejected(why)) => why,
        Ok(DurationOutcome::Expires(e)) => panic!("expires at {}", e.unix_secs()),
        Err(e) => panic!("error: {:?}", e),
    }
}

fn error_of(r: Result<DurationOutcome, DurationError>) -> DurationError {
    match r {
        Err(e) => e,
        Ok(_) => panic!("expected an error"),
    }
}

#[test]
fn minutes_up_to_sixty_expire_after_that_many_minutes() {
    for n in 0..=60u64 {
        let token = format!("{}m", n);
        assert_eq!(expiry_of(parse_duration(NOW, &token)), (NOW + 60 * n) as i64);
    }
}

#[test]
fn thirty_minutes_expire_after_1800_seconds() {
    assert_eq!(expiry_of(parse_duration(NOW, "30m")), 1_700_001_800);
}

#[test]
fn zero_minutes_expire_now() {
    assert_eq!(expiry_of(parse_duration(NOW, "0m")), NOW as i64);
}

#[test]
fn leading_zeros_and_plus_sign_are_read_as_numbers() {
    assert_eq!(expiry_of(parse_duration(NOW, "007m")), (NOW + 420) as i64);
    assert_eq!(expiry_of(parse_duration(NOW, "+5m")), (NOW + 300) as i64);
}

#[test]
fn minutes_above_sixty_are_too_long() {
    for n in [61u64, 90, 5000, u64::MAX] {
        let token = format!("{}m", n);
        assert_eq!(rejection_of(parse_duration(NOW, &token)), Rejection::TooLong);
    }
}

#[test]
fn minutes_beyond_u64_are_too_long() {
    for token in ["18446744073709551616m", "99999999999999999999m", "+99999999999999999999m"] {
        assert_eq!(rejection_of(parse_duration(NOW, token)), Rejection::TooLong, "{:?}", token);
    }
}

#[test]
fn unsigned_number_text() {
    assert!(is_unsigned_number("0"));
    assert!(is_unsigned_number("+42"));
    assert!(is_unsigned_number("99999999999999999999"));
    assert!(!is_unsigned_number(""));
    assert!(!is_unsigned_number("+"));
    assert!(!is_unsigned_number("-1"));
    assert!(!is_unsigned_number("4a"));
    assert!(!is_unsigned_number("١٢"));
}

#[test]
fn too_long_message() {
    assert_eq!(Rejection::TooLong.message(), "1h max for timeouts rn");
}

#[test]
fn one_hour_expires_after_3600_seconds() {
    assert_eq!(expiry_of(parse_duration(NOW, "1h")), (NOW + 3600) as i64);
}

#[test]
fn other_shapes_are_badly_formed() {
    for token in ["abc", "90s", "", "1H", "2h", "1h ", " 30m ", "30M", "60"] {
        assert_eq!(rejection_of(parse_duration(NOW, token)), Rejection::BadFormat, "{:?}", token);
    }
}

#[test]
fn bad_format_message() {
    assert_eq!(Rejection::BadFormat.message(), "Must be in format {}m or 1h");
}

#[test]
fn non_numeric_minutes_are_an_error() {
    assert_eq!(error_of(parse_duration(NOW, "abcm")), DurationError::NotANumber);
}

#[test]
fn malformed_minutes_are_an_error() {
    for token in ["m", "+m", "-5m", "5 m", "1hm", "++5m", "5+m"] {
        assert_eq!(error_of(parse_duration(NOW, token)), DurationError::NotANumber, "{:?}", token);
    }
}

#[test]
fn expiry_at_the_last_encodable_second() {
    let now = MAX_TIMESTAMP_SECS as u64 - 3600;
    assert_eq!(expiry_of(parse_duration(now, "60m")), MAX_TIMESTAMP_SECS);
    assert_eq!(error_of(parse_duration(now + 1, "60m")), DurationError::OutOfRange);
}

#[test]
fn expiry_past_the_clock_range_is_an_error() {
    assert_eq!(error_of(parse_duration(u64::MAX, "1h")), DurationError::OutOfRange);
    assert_eq!(error_of(parse_duration(u64::MAX - 10, "0m")), DurationError::OutOfRange);
}

#[test]
fn strip_last_char_removes_only_a_final_match() {
    assert_eq!(strip_last_char("30m", 'm'), Some("30"));
    assert_eq!(strip_last_char("m", 'm'), Some(""));
    assert_eq!(strip_last_char("mm", 'm'), Some("m"));
    assert_eq!(strip_last_char("1h", 'm'), None);
    assert_eq!(strip_last_char("", 'm'), None);
    assert_eq!(strip_last_char("äm", 'm'), Some("ä"));
}

#[test]
fn unsigned_parsing() {
    assert_eq!(parse_unsigned("0"), Some(0));
    assert_eq!(parse_unsigned("007"), Some(7));
    assert_eq!(parse_unsigned("+42"), Some(42));
    assert_eq!(parse_unsigned("18446744073709551615"), Some(u64::MAX));
    assert_eq!(parse_unsigned("18446744073709551616"), None);
    assert_eq!(parse_unsigned("99999999999999999999x"), None);
    assert_eq!(parse_unsigned(""), None);
    assert_eq!(parse_unsigned("+"), None);
    assert_eq!(parse_unsigned("-1"), None);
    assert_eq!(parse_unsigned("1 "), None);
    assert_eq!(parse_unsigned("4a"), None);
    for text in ["0", "1", "60", "61", "+5", "", "+", "++1", "x", "12345678901234567890", "18446744073709551616"] {
        assert_eq!(parse_unsigned(text), text.parse::<u64>().ok(), "{:?}", text);
    }
}
