use poise::serenity_prelude::model::timestamp::InvalidTimestamp;
use poise::serenity_prelude::Timestamp;
use vstd::prelude::*;

verus! {

/// Earliest Unix second that a platform timestamp can hold (1 January of
/// year -262143, UTC).
pub const MIN_TIMESTAMP_SECS: i64 = -8334601228800;

/// Latest Unix second that a platform timestamp can hold (31 December of
/// year 262142, 23:59:59 UTC).
pub const MAX_TIMESTAMP_SECS: i64 = 8210266876799;

/// Whether a Unix second can be encoded as a platform timestamp.
pub open spec fn encodable(secs: int) -> bool {
    MIN_TIMESTAMP_SECS <= secs <= MAX_TIMESTAMP_SECS
}

#[verifier::external_type_specification]
#[verifier::external_body]
pub struct ExTimestamp(Timestamp);

#[verifier::external_type_specification]
#[verifier::external_body]
pub struct ExInvalidTimestamp(InvalidTimestamp);

/// The instant at which a timeout ends: whole Unix seconds together with
/// the platform timestamp made from them. Only `Expiry::from_unix_secs`
/// creates one, so the two always agree.
#[derive(Clone, Copy)]
pub struct Expiry {
    unix_secs: i64,
    stamp: Timestamp,
}

impl View for Expiry {
    type V = int;

    /// The Unix second of the expiry.
    closed spec fn view(&self) -> int {
        self.unix_secs as int
    }
}

/// Relies on serenity's `Timestamp::from_unix_timestamp`, which multiplies
/// the seconds by 1000 (hence the bound) and then succeeds exactly when
/// chrono can place the instant between years -262143 and 262142; the
/// timestamp it returns is kept beside the seconds it was made from.
#[verifier::external_body]
fn expiry_from_secs(secs: i64) -> (r: Result<Expiry, InvalidTimestamp>)
    requires
        i64::MIN <= secs * 1000 <= i64::MAX,
    ensures
        r is Ok <==> encodable(secs as int),
        r matches Ok(e) ==> e@ == secs,
{
    Timestamp::from_unix_timestamp(secs).map(|stamp| Expiry { unix_secs: secs, stamp })
}

impl Expiry {
    /// The expiry at Unix second `secs`, or `None` when the platform cannot
    /// encode that instant.
    pub fn from_unix_secs(secs: u64) -> (r: Option<Expiry>)
        ensures
            r is Some <==> encodable(secs as int),
            r matches Some(e) ==> e@ == secs,
    {
        if secs > MAX_TIMESTAMP_SECS as u64 {
            return None;
        }
        match expiry_from_secs(secs as i64) {
            Ok(e) => Some(e),
            Err(_) => None,
        }
    }

    /// The Unix second of the expiry.
    pub fn unix_secs(&self) -> (r: i64)
        ensures
            r == self@,
    {
        self.unix_secs
    }

    /// The platform timestamp of the expiry, made from `unix_secs()`.
    pub fn stamp(&self) -> Timestamp {
        self.stamp
    }
}

} // verus!
