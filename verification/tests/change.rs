use ticker_roles::calendar::{local_trading_day, TIMESTAMP_MAX, TIMESTAMP_MIN};
use ticker_roles::change::{previous_day_pair, quote_change, quote_days, DayPair};
use ticker_roles::error::ReconcileError;
use ticker_roles::roles::{plan_roles, Direction, RolePair};

const GREEN: u64 = 621894745807126538;
const RED: u64 = 621894973360439299;

/// Day number of 14 November 2023, a Tuesday.
const NOV_14: i32 = 738_838;

/// Seconds from the epoch to 14 November 2023, 00:00 UTC.
const NOV_14_UTC: i64 = 19_675 * 86_400;

fn percent_between(closes: &[f64], pair: &DayPair) -> f64 {
    100. * ((closes[pair.last] - closes[pair.previous]) / closes[pair.previous])
}

#[test]
fn trading_day_of_an_afternoon_is_its_date() {
    // 2023-11-14 22:13:20 UTC is 17:13 in New York.
    assert_eq!(local_trading_day(1_700_000_000), Some(NOV_14));
}

#[test]
fn trading_day_of_utc_midnight_is_the_evening_before() {
    // 00:00 UTC is 19:00 of the day before in New York.
    assert_eq!(local_trading_day(NOV_14_UTC), Some(NOV_14 - 1));
    assert_eq!(local_trading_day(NOV_14_UTC + 5 * 3600 - 1), Some(NOV_14 - 1));
    assert_eq!(local_trading_day(NOV_14_UTC + 5 * 3600), Some(NOV_14));
}

#[test]
fn trading_day_follows_daylight_saving_time() {
    // 1 July 2023 is day 738702; in summer New York is four hours behind.
    let july_1_utc: i64 = 19_539 * 86_400;
    assert_eq!(local_trading_day(july_1_utc + 4 * 3600 - 1), Some(738_701));
    assert_eq!(local_trading_day(july_1_utc + 4 * 3600), Some(738_702));
    assert_eq!(local_trading_day(july_1_utc + 4 * 3600 + 1800), Some(738_702));
}

#[test]
fn trading_day_of_the_epoch() {
    // 1 January 1970, 00:00 UTC is still 31 December 1969 in New York.
    assert_eq!(local_trading_day(0), Some(719_162));
    assert_eq!(local_trading_day(5 * 3600), Some(719_163));
}

#[test]
fn trading_day_is_not_the_timestamp() {
    // 738838 seconds are eight and a half days: 9 January 1970.
    let day = local_trading_day(738_838);
    assert_eq!(day, Some(719_171));
}

#[test]
fn trading_day_at_the_bounds_exists() {
    assert!(local_trading_day(TIMESTAMP_MIN).is_some());
    assert!(local_trading_day(TIMESTAMP_MAX).is_some());
    let low = local_trading_day(TIMESTAMP_MIN).unwrap();
    let high = local_trading_day(TIMESTAMP_MAX).unwrap();
    assert!(low < 0 && 0 < high);
}

#[test]
fn trading_day_beyond_the_bounds_is_none() {
    assert_eq!(local_trading_day(TIMESTAMP_MAX + 1), None);
    assert_eq!(local_trading_day(TIMESTAMP_MIN - 1), None);
    assert_eq!(local_trading_day(i64::MAX), None);
    assert_eq!(local_trading_day(i64::MIN), None);
}

#[test]
fn quote_days_places_each_sample() {
    let timestamps = vec![NOV_14_UTC, NOV_14_UTC + 52_200, 1_700_000_000];
    assert_eq!(quote_days(&timestamps), Ok(vec![NOV_14 - 1, NOV_14, NOV_14]));
}

#[test]
fn quote_days_of_no_samples_is_an_empty_result() {
    assert_eq!(quote_days(&Vec::new()), Err(ReconcileError::EmptyResult));
}

#[test]
fn quote_days_rejects_a_malformed_timestamp() {
    let timestamps = vec![1_700_000_000, i64::MAX];
    assert_eq!(quote_days(&timestamps), Err(ReconcileError::MalformedTimestamp));
    let timestamps = vec![i64::MIN, 1_700_000_000];
    assert_eq!(quote_days(&timestamps), Err(ReconcileError::MalformedTimestamp));
}

#[test]
fn previous_is_the_last_quote_of_the_day_before() {
    // day1 100, day1 101, day2 99
    let days = vec![NOV_14 - 1, NOV_14 - 1, NOV_14];
    let closes = [100.0, 101.0, 99.0];
    let pair = previous_day_pair(&days).unwrap();
    assert_eq!(
        pair,
        DayPair { last: 2, last_day: NOV_14, previous: 1, previous_day: NOV_14 - 1 }
    );
    assert_eq!(closes[pair.previous], 101.0);
    assert_eq!(closes[pair.last], 99.0);
    let percent = percent_between(&closes, &pair);
    assert!((percent - (-1.98)).abs() < 0.001);

    let roles = RolePair::new(RED, GREEN).unwrap();
    let direction = Direction::from_bits(percent.to_bits());
    assert_eq!(direction, Direction::Down);
    assert_eq!(roles.desired_role(direction), GREEN);
    let plan = plan_roles(&roles, direction, &vec![RED]);
    assert_eq!(plan.add, Some(GREEN));
    assert_eq!(plan.remove, Some(RED));
    let plan = plan_roles(&roles, direction, &vec![]);
    assert_eq!(plan.add, Some(GREEN));
    assert_eq!(plan.remove, None);
}

#[test]
fn same_day_duplicates_are_passed_over() {
    let days = vec![10, 11, 12, 12, 12];
    let pair = previous_day_pair(&days).unwrap();
    assert_eq!(pair, DayPair { last: 4, last_day: 12, previous: 1, previous_day: 11 });
}

#[test]
fn previous_day_may_lie_days_back() {
    // Friday's close is what Monday is compared with.
    let days = vec![8, 9, 10, 13];
    let pair = previous_day_pair(&days).unwrap();
    assert_eq!(pair, DayPair { last: 3, last_day: 13, previous: 2, previous_day: 10 });
}

#[test]
fn two_days_give_an_earlier_previous_day() {
    let days = vec![3, 3, 4, 4, 7, 7, 7];
    let pair = previous_day_pair(&days).unwrap();
    assert!(pair.previous_day < pair.last_day);
    assert!(pair.previous < pair.last);
    assert_eq!(pair.previous, 3);
    assert_eq!(pair.previous_day, 4);
}

#[test]
fn one_day_has_no_previous() {
    assert_eq!(previous_day_pair(&vec![5, 5, 5]), Err(ReconcileError::NoPriorDay));
    assert_eq!(previous_day_pair(&vec![5]), Err(ReconcileError::NoPriorDay));
    assert_eq!(previous_day_pair(&vec![i32::MIN, i32::MIN]), Err(ReconcileError::NoPriorDay));
}

#[test]
fn a_later_day_is_no_previous_day() {
    assert_eq!(previous_day_pair(&vec![5, 3]), Err(ReconcileError::NoPriorDay));
    let pair = previous_day_pair(&vec![2, 5, 3]).unwrap();
    assert_eq!(pair, DayPair { last: 2, last_day: 3, previous: 0, previous_day: 2 });
}

#[test]
fn extreme_days_are_compared_without_overflow() {
    let pair = previous_day_pair(&vec![i32::MIN, i32::MAX]).unwrap();
    assert_eq!(pair, DayPair { last: 1, last_day: i32::MAX, previous: 0, previous_day: i32::MIN });
}

#[test]
fn no_quotes_is_an_error() {
    assert_eq!(previous_day_pair(&Vec::new()), Err(ReconcileError::NoQuotes));
    assert_eq!(quote_change(&Vec::new()), Err(ReconcileError::EmptyResult));
}

#[test]
fn quote_change_over_a_weekend() {
    // Opening samples of Wed 8, Thu 9, Fri 10, Mon 13, Tue 14 November 2023
    // at 14:30 UTC, and one more sample of the 14th at 21:00 UTC.
    let open = 52_200;
    let timestamps = vec![
        19_669 * 86_400 + open,
        19_670 * 86_400 + open,
        19_671 * 86_400 + open,
        19_674 * 86_400 + open,
        NOV_14_UTC + open,
        NOV_14_UTC + 75_600,
    ];
    let pair = quote_change(&timestamps).unwrap();
    assert_eq!(
        pair,
        DayPair { last: 5, last_day: NOV_14, previous: 3, previous_day: NOV_14 - 1 }
    );
}

#[test]
fn quote_change_within_one_day_has_no_previous() {
    let timestamps = vec![NOV_14_UTC + 52_200, NOV_14_UTC + 60_000, NOV_14_UTC + 75_600];
    assert_eq!(quote_change(&timestamps), Err(ReconcileError::NoPriorDay));
}

#[test]
fn quote_change_splits_days_at_local_midnight() {
    // 04:59 and 05:00 UTC are one minute apart and on two New York dates.
    let timestamps = vec![NOV_14_UTC + 5 * 3600 - 60, NOV_14_UTC + 5 * 3600];
    let pair = quote_change(&timestamps).unwrap();
    assert_eq!(
        pair,
        DayPair { last: 1, last_day: NOV_14, previous: 0, previous_day: NOV_14 - 1 }
    );
    // 23:59 UTC and 00:00 UTC of the next day are on one New York date.
    let timestamps = vec![NOV_14_UTC - 60, NOV_14_UTC];
    assert_eq!(quote_change(&timestamps), Err(ReconcileError::NoPriorDay));
}

#[test]
fn quote_change_rejects_a_malformed_timestamp() {
    let timestamps = vec![i64::MAX, NOV_14_UTC - 86_400, NOV_14_UTC + 52_200];
    assert_eq!(quote_change(&timestamps), Err(ReconcileError::MalformedTimestamp));
}
