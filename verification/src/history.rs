//! Historic sensor readings: range filtering and day paging.
//!
//! The persistence layer stores readings in one flat file per civil day,
//! named by the day the timestamp falls on.  Serving a time range means
//! deciding which day pages to read — from the page of the range's start,
//! day by day, up to the page of the range's end — and filtering the
//! entries of the boundary pages down to the range.  Both decisions are
//! made here; reading the page files is the persistence layer's work.

use chrono::Datelike;
use vstd::prelude::*;

use crate::reading::SensorData;

verus! {

/// One persisted reading: a Unix timestamp in seconds and the reading
/// taken then.
#[derive(Clone, Copy, Debug, PartialEq, Eq, Structural)]
pub struct HistoricSensorData {
    pub time: u64,
    pub data: SensorData,
}

/// Whether a persisted reading falls inside a closed time range.
pub open spec fn spec_in_range(d: HistoricSensorData, start_ticks: u64, end_ticks: u64) -> bool {
    start_ticks <= d.time <= end_ticks
}

/// The subsequence of readings inside a closed time range, in stored
/// order.
pub open spec fn spec_filter_range(
    s: Seq<HistoricSensorData>,
    start_ticks: u64,
    end_ticks: u64,
) -> Seq<HistoricSensorData>
    decreases s.len(),
{
    if s.len() == 0 {
        Seq::empty()
    } else {
        let rest = spec_filter_range(s.drop_last(), start_ticks, end_ticks);
        if spec_in_range(s.last(), start_ticks, end_ticks) {
            rest.push(s.last())
        } else {
            rest
        }
    }
}

/// Keeps exactly the readings whose timestamp lies inside the closed
/// range, in stored order.
pub fn filter_historic(data: &Vec<HistoricSensorData>, start_ticks: u64, end_ticks: u64) -> (r:
    Vec<HistoricSensorData>)
    ensures
        r@ == spec_filter_range(data@, start_ticks, end_ticks),
{
    let n = data.len();
    let mut r: Vec<HistoricSensorData> = Vec::new();
    let mut i: usize = 0;
    while i < n
        invariant
            i <= n == data@.len(),
            r@ == spec_filter_range(data@.take(i as int), start_ticks, end_ticks),
        decreases n - i,
    {
        proof {
            assert(data@.take(i as int + 1).drop_last() =~= data@.take(i as int));
            assert(data@.take(i as int + 1).last() == data@[i as int]);
        }
        let d = data[i];
        if start_ticks <= d.time && d.time <= end_ticks {
            r.push(d);
        }
        i = i + 1;
    }
    proof {
        assert(data@.take(n as int) =~= data@);
    }
    r
}

/// The civil day of month, one-based, that a Unix timestamp falls on —
/// or nothing where the timestamp lies outside the representable
/// calendar.
pub uninterp spec fn day_of_month_of(ts: u64) -> Option<u32>;

/// Relies on chrono: `NaiveDateTime::from_timestamp_opt(ts, 0)` composed
/// with `Datelike::day`.  The result is a function of the timestamp
/// alone; `from_timestamp_opt` returns `None` only out of range, and
/// `day` is the one-based day of the month.
#[verifier::external_body]
fn day_of_month(ts: u64) -> (r: Option<u32>)
    ensures
        r == day_of_month_of(ts),
        r matches Some(d) ==> 1 <= d <= 31,
{
    match chrono::NaiveDateTime::from_timestamp_opt(ts as i64, 0) {
        Some(date) => Some(date.day()),
        None => None,
    }
}

/// Seconds in one civil day.
pub const DAY_SECONDS: u64 = 86400;

/// What a well-formed page plan looks like: it begins at the range's
/// start, advances one day per page, visits strictly intermediate days
/// only inside the range and off the end's day, and stops on the end's
/// day or just past the range.
pub open spec fn spec_pages_ok(v: Seq<u64>, start_ticks: u64, end_ticks: u64) -> bool {
    &&& v.len() >= 2
    &&& v[0] == start_ticks
    &&& forall|k: int| 0 <= k < v.len() - 1 ==> v[k + 1] == #[trigger] v[k] + DAY_SECONDS
    &&& forall|k: int|
        1 <= k < v.len() - 1 ==> (#[trigger] v[k]) < end_ticks && day_of_month_of(v[k]) is Some
            && day_of_month_of(v[k]) != day_of_month_of(end_ticks)
    &&& (v.last() >= end_ticks || day_of_month_of(v.last()) == day_of_month_of(end_ticks))
}

/// Plans which day pages serve a closed time range: the page of the
/// start, then one page per following day until the end's day (or the
/// end of the range) is reached.  Returns nothing exactly when the
/// calendar cannot place the end, or some strictly intermediate
/// timestamp of the walk.
pub fn page_times(start_ticks: u64, end_ticks: u64) -> (r: Option<Vec<u64>>)
    requires
        start_ticks <= u64::MAX - DAY_SECONDS,
        end_ticks <= u64::MAX - DAY_SECONDS,
    ensures
        r matches Some(v) ==> spec_pages_ok(v@, start_ticks, end_ticks) && day_of_month_of(
            end_ticks,
        ) is Some,
        day_of_month_of(end_ticks) is None ==> r is None,
        r is None ==> day_of_month_of(end_ticks) is None || (exists|t: u64|
            start_ticks < t < end_ticks && (#[trigger] day_of_month_of(t)) is None),
{
    let end_day: u32 = match day_of_month(end_ticks) {
        Some(d) => d,
        None => {
            return None;
        },
    };
    let mut pages: Vec<u64> = Vec::new();
    pages.push(start_ticks);
    let mut current: u64 = start_ticks + DAY_SECONDS;
    while current < end_ticks
        invariant
            start_ticks <= u64::MAX - DAY_SECONDS,
            end_ticks <= u64::MAX - DAY_SECONDS,
            day_of_month_of(end_ticks) == Some(end_day),
            pages@.len() >= 1,
            pages@[0] == start_ticks,
            current == pages@.last() + DAY_SECONDS,
            current > start_ticks,
            forall|k: int|
                0 <= k < pages@.len() - 1 ==> pages@[k + 1] == #[trigger] pages@[k] + DAY_SECONDS,
            forall|k: int|
                1 <= k < pages@.len() ==> (#[trigger] pages@[k]) < end_ticks && day_of_month_of(
                    pages@[k],
                ) is Some && day_of_month_of(pages@[k]) != day_of_month_of(end_ticks),
        decreases end_ticks + DAY_SECONDS - current,
    {
        match day_of_month(current) {
            Some(d) => {
                if d == end_day {
                    pages.push(current);
                    return Some(pages);
                }
                pages.push(current);
                current = current + DAY_SECONDS;
            },
            None => {
                return None;
            },
        }
    }
    pages.push(current);
    Some(pages)
}

} // verus!
