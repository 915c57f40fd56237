//! The two quotes a daily change is measured between: the latest quote and
//! the latest quote of an earlier trading day.

use crate::calendar::{local_trading_day, trading_day};
use crate::error::ReconcileError;
use vstd::prelude::*;

verus! {

/// The quotes that a change is computed from, by their position in the
/// fetched sequence, each with its trading day.
#[derive(Clone, Copy, Debug, PartialEq, Eq, Structural)]
pub struct DayPair {
    /// Position of the evaluated quote: the final one.
    pub last: usize,
    /// Trading day of the evaluated quote.
    pub last_day: i32,
    /// Position of the quote it is compared with.
    pub previous: usize,
    /// Trading day of the quote it is compared with.
    pub previous_day: i32,
}

impl DayPair {
    /// The comparison quote comes before the evaluated one, on an earlier day.
    pub open spec fn wf(&self) -> bool {
        self.previous < self.last && self.previous_day < self.last_day
    }
}

/// Every timestamp falls on a trading day.
pub open spec fn all_placed(timestamps: Seq<i64>) -> bool {
    forall|i: int| 0 <= i < timestamps.len() ==> (#[trigger] trading_day(timestamps[i])) is Some
}

/// The trading day of each timestamp, in the order of the timestamps.
pub open spec fn days_of(timestamps: Seq<i64>) -> Seq<i32> {
    Seq::new(timestamps.len(), |i: int| trading_day(timestamps[i]).unwrap())
}

/// Places the samples of a fetched window on their trading days.
///
/// An empty window is an `EmptyResult`; a window with a timestamp that falls
/// on no date is a `MalformedTimestamp`; otherwise each sample gets its day.
pub fn quote_days(timestamps: &Vec<i64>) -> (result: Result<Vec<i32>, ReconcileError>)
    ensures
        match result {
            Ok(days) => timestamps@.len() > 0 && all_placed(timestamps@) && days@ == days_of(
                timestamps@,
            ),
            Err(ReconcileError::EmptyResult) => timestamps@.len() == 0,
            Err(ReconcileError::MalformedTimestamp) => timestamps@.len() > 0 && !all_placed(
                timestamps@,
            ),
            Err(_) => false,
        },
{
    let n: usize = timestamps.len();
    if n == 0 {
        return Err(ReconcileError::EmptyResult);
    }
    let mut days: Vec<i32> = Vec::new();
    let mut i: usize = 0;
    while i < n
        invariant
            n == timestamps@.len(),
            i <= n,
            days@.len() == i,
            forall|k: int|
                0 <= k < i ==> (#[trigger] trading_day(timestamps@[k])) == Some(days@[k]),
        decreases n - i,
    {
        match local_trading_day(timestamps[i]) {
            Some(day) => {
                days.push(day);
            },
            None => {
                assert(trading_day(timestamps@[i as int]) is None);
                return Err(ReconcileError::MalformedTimestamp);
            },
        }
        i += 1;
    }
    assert(days@ =~= days_of(timestamps@));
    Ok(days)
}

/// Some quote before the last lies on an earlier trading day than the last.
pub open spec fn has_prior_day(days: Seq<i32>) -> bool {
    exists|i: int| 0 <= i < days.len() - 1 && #[trigger] days[i] < days.last()
}

/// `p` is the position of the previous quote: scanning backward from the
/// second-to-last quote, the first one on an earlier day than the last.
pub open spec fn is_previous(days: Seq<i32>, p: int) -> bool {
    &&& 0 <= p < days.len() - 1
    &&& days[p] < days.last()
    &&& forall|j: int| p < j < days.len() - 1 ==> #[trigger] days[j] >= days.last()
}

/// `result` is what the change calculator owes for `days`.
pub open spec fn is_change(days: Seq<i32>, result: Result<DayPair, ReconcileError>) -> bool {
    match result {
        Ok(pair) => {
            &&& is_previous(days, pair.previous as int)
            &&& pair.previous_day == days[pair.previous as int]
            &&& pair.last == days.len() - 1
            &&& pair.last_day == days.last()
        },
        Err(ReconcileError::NoQuotes) => days.len() == 0,
        Err(ReconcileError::NoPriorDay) => days.len() > 0 && !has_prior_day(days),
        Err(_) => false,
    }
}

/// Finds the evaluated quote and the quote it is compared with.
///
/// `days` holds the trading day of each quote, in the order of the quotes.
/// The evaluated quote is the last one. The comparison quote is found by
/// scanning backward from the second-to-last: the first quote on an earlier
/// trading day. Quotes that share the last quote's day are passed over, so
/// duplicate samples of one day never count as two days.
pub fn previous_day_pair(days: &Vec<i32>) -> (result: Result<DayPair, ReconcileError>)
    ensures
        is_change(days@, result),
        result matches Ok(pair) ==> pair.wf(),
{
    let n: usize = days.len();
    if n == 0 {
        return Err(ReconcileError::NoQuotes);
    }
    let last: usize = n - 1;
    let last_day: i32 = days[last];
    let mut i: usize = last;
    while i > 0
        invariant
            n == days@.len(),
            last == n - 1,
            last_day == days@.last(),
            i <= last,
            forall|j: int| i <= j < last ==> #[trigger] days@[j] >= last_day,
        decreases i,
    {
        i -= 1;
        if days[i] < last_day {
            return Ok(DayPair { last, last_day, previous: i, previous_day: days[i] });
        }
    }
    Err(ReconcileError::NoPriorDay)
}

/// `result` is what is owed for a fetched window with these timestamps: the
/// error of the first step that fails, or the quotes to compare.
pub open spec fn is_quote_change(
    timestamps: Seq<i64>,
    result: Result<DayPair, ReconcileError>,
) -> bool {
    match result {
        Ok(pair) => {
            &&& timestamps.len() > 0
            &&& all_placed(timestamps)
            &&& is_change(days_of(timestamps), Ok(pair))
        },
        Err(ReconcileError::EmptyResult) => timestamps.len() == 0,
        Err(ReconcileError::MalformedTimestamp) => timestamps.len() > 0 && !all_placed(timestamps),
        Err(ReconcileError::NoPriorDay) => {
            &&& timestamps.len() > 0
            &&& all_placed(timestamps)
            &&& !has_prior_day(days_of(timestamps))
        },
        Err(_) => false,
    }
}

/// Finds the quotes to compare in a fetched window, given by the timestamps
/// of its samples: places the samples on their trading days, then looks for
/// the previous day's quote.
pub fn quote_change(timestamps: &Vec<i64>) -> (result: Result<DayPair, ReconcileError>)
    ensures
        is_quote_change(timestamps@, result),
        result matches Ok(pair) ==> pair.wf(),
{
    match quote_days(timestamps) {
        Ok(days) => previous_day_pair(&days),
        Err(error) => Err(error),
    }
}

/// The days never go backward from one quote to the next.
pub open spec fn ordered(days: Seq<i32>) -> bool {
    forall|i: int, j: int| 0 <= i <= j < days.len() ==> days[i] <= days[j]
}

/// The quotes lie on at least two different trading days.
pub open spec fn spans_two_days(days: Seq<i32>) -> bool {
    exists|i: int, j: int|
        0 <= i < days.len() && 0 <= j < days.len() && #[trigger] days[i] != #[trigger] days[j]
}

/// Every quote lies on the same trading day.
pub open spec fn single_day(days: Seq<i32>) -> bool {
    forall|i: int| 0 <= i < days.len() ==> #[trigger] days[i] == days[0]
}

/// The calculator owes one result and no other: the previous quote is
/// unique, so two results for the same days are the same result.
pub proof fn lemma_change_is_unique(
    days: Seq<i32>,
    first: Result<DayPair, ReconcileError>,
    second: Result<DayPair, ReconcileError>,
)
    requires
        is_change(days, first),
        is_change(days, second),
    ensures
        first == second,
{
    if first is Ok && second is Ok {
        let p = first->Ok_0.previous as int;
        let q = second->Ok_0.previous as int;
        if p < q {
            assert(days[q] >= days.last());
        }
        if q < p {
            assert(days[p] >= days.last());
        }
    }
}

/// The calculator succeeds exactly when some quote before the last lies on
/// an earlier trading day than the last, and then the day it compares with
/// is strictly earlier than the day it evaluates.
pub proof fn lemma_earlier_quote_gives_earlier_previous(
    days: Seq<i32>,
    result: Result<DayPair, ReconcileError>,
)
    requires
        is_change(days, result),
    ensures
        result is Ok <==> has_prior_day(days),
        result matches Ok(pair) ==> pair.previous_day < pair.last_day && pair.previous < pair.last,
{
    if result is Ok {
        assert(days[result->Ok_0.previous as int] < days.last());
    }
}

/// For quotes in chronological order that lie on two or more trading days,
/// the calculator succeeds, and the day it compares with is strictly earlier
/// than the day it evaluates.
pub proof fn lemma_two_days_give_earlier_previous(
    days: Seq<i32>,
    result: Result<DayPair, ReconcileError>,
)
    requires
        ordered(days),
        spans_two_days(days),
        is_change(days, result),
    ensures
        result matches Ok(pair) && pair.previous_day < pair.last_day,
{
    let (i, j) = choose|i: int, j: int|
        0 <= i < days.len() && 0 <= j < days.len() && #[trigger] days[i] != #[trigger] days[j];
    let low = if days[i] < days[j] { i } else { j };
    let high = if days[i] < days[j] { j } else { i };
    assert(days[low] < days[high]);
    assert(days[high] <= days[days.len() - 1]);
    assert(0 <= low < days.len() - 1 && days[low] < days.last());
}

/// For one or more quotes that all share a trading day, the calculator fails
/// with `NoPriorDay`.
pub proof fn lemma_one_day_has_no_previous(
    days: Seq<i32>,
    result: Result<DayPair, ReconcileError>,
)
    requires
        days.len() > 0,
        single_day(days),
        is_change(days, result),
    ensures
        result == Err::<DayPair, ReconcileError>(ReconcileError::NoPriorDay),
{
    assert(days.last() == days[0]);
    assert(!has_prior_day(days));
}

/// For quotes in chronological order, the previous quote is the last one
/// before the final quote whose day differs from the final day, and no quote
/// lies on a day between its day and the final day.
pub proof fn lemma_ordered_previous_is_nearest_other_day(days: Seq<i32>, p: int)
    requires
        ordered(days),
        0 <= p < days.len() - 1,
    ensures
        is_previous(days, p) <==> {
            &&& days[p] != days.last()
            &&& forall|j: int| p < j < days.len() - 1 ==> #[trigger] days[j] == days.last()
        },
        is_previous(days, p) ==> forall|i: int|
            0 <= i < days.len() && #[trigger] days[i] < days.last() ==> days[i] <= days[p],
{
    assert(days[p] <= days[days.len() - 1]);
    if is_previous(days, p) {
        assert forall|j: int| p < j < days.len() - 1 implies #[trigger] days[j] == days.last() by {
            assert(days[j] <= days[days.len() - 1]);
        }
        assert forall|i: int|
            0 <= i < days.len() && #[trigger] days[i] < days.last() implies days[i] <= days[p] by {
            if i > p {
                assert(i < days.len() - 1);
                assert(days[i] >= days.last());
            }
        }
    }
}

} // verus!
