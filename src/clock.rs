//! Modification times as local wall-clock text.

use vstd::prelude::*;

verus! {

/// The widest modification time, in seconds either side of the Unix epoch,
/// that is always shown: about 34,800 years, well inside chrono's range.
pub const TIME_LIMIT: i64 = 1099511627776;

/// Whether a modification time lies within `TIME_LIMIT` of the epoch.
pub open spec fn time_in_range(secs: i64) -> bool {
    -TIME_LIMIT <= secs <= TIME_LIMIT
}

/// Relies on chrono: `DateTime::from_timestamp(secs, 0)`, which gives `None`
/// when the seconds are out of its range, then `with_timezone(&Local)` and
/// `format("%b %e %H:%M")`. That pattern is a three-letter month name, a
/// space, the day padded with a space to two places, a space, and the hour
/// and minute as two digits each around a colon: twelve characters.
/// `from_timestamp` fails only on seconds outside its range, which takes in
/// every time within `TIME_LIMIT`; the conversion to local time and the
/// formatting do not fail. The text depends on the machine's time zone, so
/// nothing more is stated of it.
#[verifier::external_body]
pub(crate) fn local_time_stamp(secs: i64) -> (r: Option<String>)
    ensures
        r matches Some(s) ==> s@.len() == 12,
        time_in_range(secs) ==> r is Some,
{
    match chrono::DateTime::from_timestamp(secs, 0) {
        Some(t) => Some(t.with_timezone(&chrono::Local).format("%b %e %H:%M").to_string()),
        None => None,
    }
}

} // verus!
