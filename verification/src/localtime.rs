//! Resolving a location's local midnight from its IANA time-zone name, the
//! reference point for forecast freshness.

use chrono::TimeZone;
use vstd::prelude::*;

verus! {

/// What the time-zone library computes for a zone name and an instant: the
/// Unix seconds of midnight of the local calendar day containing `now_unix`
/// in that zone, or nothing when the name is not a known IANA zone or the
/// computation leaves the library's range. The value is a function of the
/// two arguments alone: the zone database is the one bundled with the
/// library.
pub uninterp spec fn local_midnight_of(tz_name: Seq<char>, now_unix: i64) -> Option<i64>;

/// Relies on chrono-tz's `Tz::from_str` and chrono's zone conversion: parse
/// the IANA zone name, take the local calendar date of `now_unix` in that
/// zone, and answer the Unix seconds of that date's earliest midnight. Both
/// depend on the arguments alone (the zone database is compiled into the
/// crate), so the result carries the name `local_midnight_of`.
#[verifier::external_body]
pub fn local_midnight_unix(tz_name: &str, now_unix: i64) -> (r: Option<i64>)
    ensures
        r == local_midnight_of(tz_name@, now_unix),
{
    let tz: chrono_tz::Tz = match tz_name.parse() {
        Ok(tz) => tz,
        Err(_) => return None,
    };
    let now = chrono::DateTime::from_timestamp(now_unix, 0)?;
    let local_day = now.with_timezone(&tz).date_naive();
    let midnight = tz.from_local_datetime(&local_day.and_hms_opt(0, 0, 0)?).earliest()?;
    Some(midnight.timestamp())
}

} // verus!
