//! Readings of the wall clock, and the calendar rendering of timestamps.

use vstd::prelude::*;
use crate::models::MAX_TIMESTAMP_MILLIS;

verus! {

/// The RFC 3339 text of a UTC timestamp given in milliseconds; a function of
/// the timestamp alone.
pub uninterp spec fn rfc3339_of(ms: int) -> Seq<char>;

/// Relies on chrono's Utc::now and DateTime::timestamp_millis. The clock
/// alone decides the value, so nothing is promised of it; callers clamp it
/// into range themselves. Utc::now aborts if the system clock reads before
/// 1970 — an environmental failure no precondition can exclude, like an
/// allocation failure.
#[verifier::external_body]
pub(crate) fn now_millis() -> i64 {
    chrono::Utc::now().timestamp_millis()
}

/// Relies on chrono's DateTime::from_timestamp_millis, which is defined on
/// the whole range admitted here, and DateTime::to_rfc3339, whose text
/// depends on the timestamp alone.
#[verifier::external_body]
pub(crate) fn rfc3339_millis(ms: i64) -> (r: String)
    requires
        0 <= ms <= MAX_TIMESTAMP_MILLIS,
    ensures
        r@ == rfc3339_of(ms as int),
{
    match chrono::DateTime::<chrono::Utc>::from_timestamp_millis(ms) {
        Some(dt) => dt.to_rfc3339(),
        None => String::new(),
    }
}

} // verus!
