//! Timestamps and the expiry rule shared by every cached item.
//!
//! All instants are whole seconds since the Unix epoch (`i64`).
use vstd::prelude::*;

verus! {

/// Safety margin, in seconds, taken off an expiry before an item counts as usable.
pub const EXPIRATION_BUFFER_SECS: i64 = 300;

/// An item that expires at `expires_at` is usable at `now` only with at least one
/// buffer period of life left.
pub open spec fn unexpired(expires_at: int, now: int) -> bool {
    expires_at - EXPIRATION_BUFFER_SECS > now
}

/// Whether an item that expires at `expires_at` is still usable at `now`.
pub fn is_unexpired(expires_at: i64, now: i64) -> (r: bool)
    ensures
        r == unexpired(expires_at as int, now as int),
{
    if expires_at < i64::MIN + EXPIRATION_BUFFER_SECS {
        false
    } else {
        expires_at - EXPIRATION_BUFFER_SECS > now
    }
}

/// The instant `secs` seconds after `now`, held at the ends of the `i64` range.
pub open spec fn offset_by(now: int, secs: int) -> int {
    if now + secs > i64::MAX {
        i64::MAX as int
    } else if now + secs < i64::MIN {
        i64::MIN as int
    } else {
        now + secs
    }
}

/// The instant `secs` seconds after `now` (an expiry given as a lifetime).
pub fn expiry_after(now: i64, secs: i64) -> (r: i64)
    ensures
        r as int == offset_by(now as int, secs as int),
{
    if secs > 0 && now > i64::MAX - secs {
        i64::MAX
    } else if secs < 0 && now < i64::MIN - secs {
        i64::MIN
    } else {
        now + secs
    }
}

/// The whole seconds in a non-negative millisecond timestamp; `None` for a
/// negative one, which names no instant after the epoch.
pub fn seconds_from_millis(millis: i64) -> (r: Option<i64>)
    ensures
        millis < 0 ==> r is None,
        millis >= 0 ==> r == Some((millis as int / 1000) as i64),
{
    if millis < 0 {
        None
    } else {
        Some(millis / 1000)
    }
}

/// Relies on chrono's `Utc::now` and `DateTime::timestamp`: the time now, in
/// whole seconds since the epoch. Nothing is known of the value.
#[verifier::external_body]
pub(crate) fn current_timestamp() -> (r: i64) {
    chrono::Utc::now().timestamp()
}

/// An instant well inside chrono's range of dates (years -262143 to 262142):
/// within about 253 000 years of the epoch.
pub open spec fn timestamp_in_range(secs: int) -> bool {
    -8_000_000_000_000 <= secs <= 8_000_000_000_000
}

/// Relies on chrono's `DateTime::from_timestamp(secs, 0)`: `None` when the
/// instant is out of chrono's range of dates, else that same instant, read
/// back with `DateTime::timestamp`; every instant of `timestamp_in_range` is
/// in chrono's range.
#[verifier::external_body]
pub(crate) fn checked_timestamp(secs: i64) -> (r: Option<i64>)
    ensures
        r is Some ==> r == Some(secs),
        timestamp_in_range(secs as int) ==> r == Some(secs),
{
    match chrono::DateTime::from_timestamp(secs, 0) {
        Some(d) => Some(d.timestamp()),
        None => None,
    }
}

} // verus!
