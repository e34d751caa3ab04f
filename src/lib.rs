//! Decision logic of a guild moderation bot whose one real command mutes a
//! member for a while: reading the requested duration, turning it into an
//! expiry instant, and the steps of the command from request to confirmation.
//! Talking to the chat platform is left to the caller.

mod command;
mod duration;
mod expiry;
mod laws;
mod token;

pub use command::{
    confirmation, confirmation_text, is_private_reply, Event, Phase, Step, TimeoutSession,
};
pub use duration::{
    duration_result, expiry_secs, parse_duration, reading_of, rejection_text, DurationError,
    DurationOutcome, Reading, Rejection, MAX_MINUTES,
};
pub use expiry::{encodable, Expiry, MAX_TIMESTAMP_SECS, MIN_TIMESTAMP_SECS};
pub use laws::{
    decimal_text, digit_char, minutes_over_limit_rejected, minutes_token, minutes_within_limit_expire,
    one_hour_expires, other_shapes_rejected,
};
pub use token::{
    all_digits, decimal_value, is_digit, is_number_text, is_u64_text, is_unsigned_number,
    number_text_value, parse_unsigned, strip_last_char, unsigned_digits, without_suffix,
};
