use vstd::prelude::*;

verus! {

/// Lifetime of a pre-authentication record: five minutes.
pub const TEMP_SESSION_TTL_MS: i64 = 300_000;

/// Lifetime of an authenticated session: twenty-four hours.
pub const SESSION_TTL_MS: i64 = 86_400_000;

/// Latest creation time for which an expiry of `SESSION_TTL_MS` later still
/// fits in an `i64`.
pub const LATEST_CREATION_MS: i64 = 9_223_372_036_768_375_807;

/// Relies on `SystemTime::duration_since(UNIX_EPOCH)`, which reports an error
/// instead of panicking when the clock reads a time before 1970: the
/// milliseconds since the epoch, or `None` when the clock is before it or the
/// count does not fit in an `i64`.
#[verifier::external_body]
pub(crate) fn current_time_millis() -> (r: Option<i64>)
    ensures
        r matches Some(ms) ==> ms >= 0,
{
    match std::time::SystemTime::now().duration_since(std::time::UNIX_EPOCH) {
        Ok(elapsed) => i64::try_from(elapsed.as_millis()).ok(),
        Err(_) => None,
    }
}

} // verus!
