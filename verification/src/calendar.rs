//! Trading days: the calendar date, in the exchange's time zone, on which an
//! instant falls.

use chrono::{Datelike, TimeZone, Utc};
use vstd::prelude::*;

verus! {

/// Earliest epoch second that is placed on a trading day.
pub const TIMESTAMP_MIN: i64 = -8_000_000_000_000;

/// Latest epoch second that is placed on a trading day.
pub const TIMESTAMP_MAX: i64 = 8_000_000_000_000;

/// The US/Eastern calendar date of the instant `timestamp` seconds after the
/// Unix epoch, as chrono and chrono-tz compute it: the date's day number in
/// the proleptic Gregorian calendar, where 1 January of year 1 is day 1.
/// `None` where chrono has no date and time for the instant.
pub uninterp spec fn eastern_day(timestamp: i64) -> Option<i32>;

/// Calls `chrono::TimeZone::timestamp_opt` on `Utc`, keeps its single
/// result, moves it to `chrono_tz::US::Eastern` with
/// `DateTime::with_timezone`, and reads `date_naive().num_days_from_ce()`.
///
/// Trusted: the result depends on the timestamp alone (the zone's rules are
/// compiled into chrono-tz), and the calls return for the timestamps
/// admitted here. The bounds keep the instant more than six thousand years
/// inside the dates chrono can hold, so that moving it to the zone's offset
/// cannot leave them, which is where `date_naive` would panic.
#[verifier::external_body]
fn eastern_date(timestamp: i64) -> (day: Option<i32>)
    requires
        TIMESTAMP_MIN <= timestamp <= TIMESTAMP_MAX,
    ensures
        day == eastern_day(timestamp),
{
    match Utc.timestamp_opt(timestamp, 0).single() {
        Some(instant) => Some(
            instant.with_timezone(&chrono_tz::US::Eastern).date_naive().num_days_from_ce(),
        ),
        None => None,
    }
}

/// The trading day of a quote: the exchange-local calendar date of its
/// timestamp, or `None` for a timestamp that has none.
pub open spec fn trading_day(timestamp: i64) -> Option<i32> {
    if TIMESTAMP_MIN <= timestamp <= TIMESTAMP_MAX {
        eastern_day(timestamp)
    } else {
        None
    }
}

/// Places a timestamp (seconds since the Unix epoch, UTC) on its trading day.
pub fn local_trading_day(timestamp: i64) -> (day: Option<i32>)
    ensures
        day == trading_day(timestamp),
{
    if TIMESTAMP_MIN <= timestamp && timestamp <= TIMESTAMP_MAX {
        eastern_date(timestamp)
    } else {
        None
    }
}

} // verus!
