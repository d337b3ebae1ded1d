//! The two places where the library asks the outside world for the time.

use vstd::prelude::*;

verus! {

/// The earliest timestamp that names an instant chrono can represent: the
/// first second of `chrono::DateTime::<Utc>::MIN_UTC`, January 1 of the year
/// 262144 BCE.
pub const MIN_TIMESTAMP: i64 = -8_334_601_228_800;

/// The latest timestamp that names an instant chrono can represent: the last
/// second of `chrono::DateTime::<Utc>::MAX_UTC`, December 31 of the year
/// 262142 CE.
pub const MAX_TIMESTAMP: i64 = 8_210_266_876_799;

/// Whether a count of seconds since the Unix epoch names an instant that can
/// be shown as a date and a time of day.
pub open spec fn timestamp_in_range(timestamp: i64) -> bool {
    MIN_TIMESTAMP <= timestamp <= MAX_TIMESTAMP
}

/// Calls `chrono::Utc::now().timestamp()`: the current wall-clock time in
/// whole seconds since the Unix epoch. The value differs from call to call,
/// so the contract claims only what holds of every one: `Utc::now` builds its
/// instant with `DateTime::from_timestamp` from the very seconds that
/// `timestamp` then gives back, so the value names an instant that chrono can
/// represent. (chrono gives up on a machine whose clock stands before the
/// epoch.)
#[verifier::external_body]
pub(crate) fn unix_now() -> (now: i64)
    ensures
        timestamp_in_range(now),
{
    chrono::Utc::now().timestamp()
}

/// Calls `chrono::DateTime::from_timestamp(timestamp, 0)` and, where that
/// gives an instant, renders it in the machine's local time zone with
/// `with_timezone(&chrono::Local)` and its `Display`. The contract claims only
/// that a text comes back exactly when chrono can represent the instant, that
/// is between its `MIN_UTC` and `MAX_UTC`; the text itself depends on the
/// machine's time zone and is left open.
#[verifier::external_body]
pub(crate) fn local_time_text(timestamp: i64) -> (text: Option<String>)
    ensures
        text.is_some() == timestamp_in_range(timestamp),
{
    match chrono::DateTime::from_timestamp(timestamp, 0) {
        Some(utc) => Some(utc.with_timezone(&chrono::Local).to_string()),
        None => None,
    }
}

} // verus!
