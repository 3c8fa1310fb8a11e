//! Calendar predicates on UTC instants: workdays, Fridays and the month-end
//! heuristic used by the monthly schedule.
use chrono::Datelike;
use vstd::arithmetic::div_mod::{
    lemma_fundamental_div_mod, lemma_fundamental_div_mod_converse, lemma_mod_bound,
};
use vstd::prelude::*;

verus! {

/// Seconds in one calendar day.
pub const SECS_PER_DAY: i64 = 86400;

/// First second of 0001-01-01 UTC.
pub const MIN_SECS: i64 = -62135596800;

/// Last second of 9999-12-31 UTC.
pub const MAX_SECS: i64 = 253402300799;

/// Day number (days since 1970-01-01) of 0001-01-01.
pub const MIN_DAY: i64 = -719162;

/// Day number (days since 1970-01-01) of 9999-12-31.
pub const MAX_DAY: i64 = 2932896;

/// An instant in UTC, as whole seconds since 1970-01-01T00:00:00Z.
#[derive(Clone, Copy, Debug, PartialEq, Eq, Structural)]
pub struct Timestamp {
    pub secs: i64,
}

impl Timestamp {
    /// The instant lies within the years 1 to 9999.
    pub open spec fn wf(self) -> bool {
        MIN_SECS <= self.secs <= MAX_SECS
    }
}

/// Day number of the instant: whole days since 1970-01-01, rounded down.
pub open spec fn epoch_day(secs: int) -> int {
    secs / 86400
}

/// Weekday of the instant, 0 for Monday up to 6 for Sunday (1970-01-01 was a Thursday).
pub open spec fn weekday_of(secs: int) -> int {
    (epoch_day(secs) + 3) % 7
}

pub open spec fn workday_at(secs: int) -> bool {
    weekday_of(secs) < 5
}

pub open spec fn friday_at(secs: int) -> bool {
    weekday_of(secs) == 4
}

/// The civil date `(year, month, day)` of a day number.
pub uninterp spec fn civil_of(day: int) -> (int, int, int);

/// The day number of the first day of a month.
pub uninterp spec fn month_start_of(year: int, month: int) -> int;

/// Day number of the first day of the month after the one holding the instant.
pub open spec fn next_month_start(secs: int) -> int {
    let (y, m, d) = civil_of(epoch_day(secs));
    if m == 12 {
        month_start_of(y + 1, 1)
    } else {
        month_start_of(y, m + 1)
    }
}

/// Month-end heuristic: the instant is a workday, and between one and three
/// whole days (at least one, fewer than four) remain until the first instant
/// of the next month.
pub open spec fn last_workday_at(secs: int) -> bool {
    let gap = next_month_start(secs) * 86400 - secs;
    86400 <= gap < 4 * 86400 && workday_at(secs)
}

pub proof fn lemma_day_bounds(secs: int)
    ensures
        epoch_day(secs) * 86400 <= secs < epoch_day(secs) * 86400 + 86400,
        secs % 86400 == secs - epoch_day(secs) * 86400,
{
    lemma_fundamental_div_mod(secs, 86400);
    lemma_mod_bound(secs, 86400);
}

/// Adding a whole day moves to the next day number and the next weekday.
pub proof fn lemma_next_day(secs: int)
    ensures
        epoch_day(secs + 86400) == epoch_day(secs) + 1,
        (secs + 86400) % 86400 == secs % 86400,
        weekday_of(secs + 86400) == (weekday_of(secs) + 1) % 7,
        0 <= weekday_of(secs) < 7,
{
    lemma_fundamental_div_mod(secs, 86400);
    lemma_mod_bound(secs, 86400);
    lemma_fundamental_div_mod_converse(
        secs + 86400,
        86400,
        secs / 86400 + 1,
        secs % 86400,
    );
    let e = epoch_day(secs);
    lemma_fundamental_div_mod(e + 3, 7);
    lemma_mod_bound(e + 3, 7);
    let q = (e + 3) / 7;
    let r = (e + 3) % 7;
    if r < 6 {
        lemma_fundamental_div_mod_converse(e + 4, 7, q, r + 1);
    } else {
        lemma_fundamental_div_mod_converse(e + 4, 7, q + 1, 0);
    }
}

/// The instant at the given second of the given day number.
pub open spec fn day_at(day: int, second: int) -> int {
    day * 86400 + second
}

pub proof fn lemma_day_at(day: int, second: int)
    requires
        0 <= second < 86400,
    ensures
        epoch_day(day_at(day, second)) == day,
        day_at(day, second) % 86400 == second,
{
    lemma_fundamental_div_mod_converse(day_at(day, second), 86400, day, second);
}

/// Two instants at the same second of the day lie a whole number of days apart.
pub proof fn lemma_same_second(t: int, u: int)
    requires
        t % 86400 == u % 86400,
        t < u,
    ensures
        t + 86400 <= u,
{
    lemma_day_bounds(t);
    lemma_day_bounds(u);
    let a = epoch_day(t);
    let b = epoch_day(u);
    assert(a < b) by (nonlinear_arith)
        requires
            a * 86400 - t == b * 86400 - u,
            t < u,
    ;
    assert(a * 86400 + 86400 <= b * 86400) by (nonlinear_arith)
        requires
            a < b,
    ;
}

/// Day number of an instant.
pub fn epoch_day_of(secs: i64) -> (r: i64)
    ensures
        r as int == epoch_day(secs as int),
{
    proof {
        lemma_day_bounds(secs as int);
    }
    let q: i64 = secs / SECS_PER_DAY;
    let m: i64 = secs % SECS_PER_DAY;
    if m < 0 {
        q - 1
    } else {
        q
    }
}

/// Weekday of an instant, 0 for Monday up to 6 for Sunday.
pub fn weekday_index(date: Timestamp) -> (r: i64)
    ensures
        r as int == weekday_of(date.secs as int),
        0 <= r < 7,
{
    let d = epoch_day_of(date.secs);
    let w: i64 = (d + 3) % 7;
    let r: i64 = if w < 0 {
        w + 7
    } else {
        w
    };
    proof {
        lemma_fundamental_div_mod(d as int + 3, 7);
        lemma_mod_bound(d as int + 3, 7);
        lemma_fundamental_div_mod_converse(d as int + 3, 7, (d as int + 3 - r as int) / 7, r as int);
    }
    r
}

/// Whether the instant falls on Monday to Friday; there is no holiday calendar.
pub fn is_workday(date: Timestamp) -> (r: bool)
    ensures
        r == workday_at(date.secs as int),
        !r <==> (weekday_of(date.secs as int) == 5 || weekday_of(date.secs as int) == 6),
{
    weekday_index(date) < 5
}

/// Whether the instant falls on a Friday.
pub fn is_friday(date: Timestamp) -> (r: bool)
    ensures
        r == friday_at(date.secs as int),
{
    weekday_index(date) == 4
}

/// Relies on chrono's `NaiveDate::from_epoch_days` and its `Datelike` accessors:
/// the proleptic Gregorian date of a day number; years 1 to 9999 are in range.
#[verifier::external_body]
fn civil_date(day: i64) -> (r: (i32, u32, u32))
    requires
        MIN_DAY <= day <= MAX_DAY,
    ensures
        civil_of(day as int) == (r.0 as int, r.1 as int, r.2 as int),
        1 <= r.0 <= 9999,
        1 <= r.1 <= 12,
        1 <= r.2 <= 31,
{
    let date = chrono::NaiveDate::from_epoch_days(day as i32).unwrap();
    (date.year(), date.month(), date.day())
}

/// Relies on chrono's `NaiveDate::from_ymd_opt` and `NaiveDate::to_epoch_days`:
/// the day number of the first day of a month of the years 1 to 10000.
#[verifier::external_body]
fn month_first_day(year: i32, month: u32) -> (r: i64)
    requires
        1 <= year <= 10000,
        1 <= month <= 12,
    ensures
        r as int == month_start_of(year as int, month as int),
{
    chrono::NaiveDate::from_ymd_opt(year, month, 1).unwrap().to_epoch_days() as i64
}

/// The civil `(year, month, day)` of an instant.
pub fn civil_date_of(date: Timestamp) -> (r: (i32, u32, u32))
    requires
        date.wf(),
    ensures
        civil_of(epoch_day(date.secs as int)) == (r.0 as int, r.1 as int, r.2 as int),
        1 <= r.0 <= 9999,
        1 <= r.1 <= 12,
        1 <= r.2 <= 31,
{
    proof {
        lemma_day_bounds(date.secs as int);
    }
    civil_date(epoch_day_of(date.secs))
}

/// Month-end heuristic: a workday from which one to three whole days remain
/// until the first instant of the next month.
pub fn is_last_workday_of_month(date: Timestamp) -> (r: bool)
    requires
        date.wf(),
    ensures
        r == last_workday_at(date.secs as int),
{
    let (y, m, _d) = civil_date_of(date);
    let first: i64 = if m == 12 {
        month_first_day(y + 1, 1)
    } else {
        month_first_day(y, m + 1)
    };
    let gap: i128 = (first as i128) * (SECS_PER_DAY as i128) - (date.secs as i128);
    gap >= 86400 && gap < 4 * 86400 && is_workday(date)
}

/// `(is_workday, is_friday, is_last_workday_of_month)` of an instant.
pub fn get_time_info(date: Timestamp) -> (r: (bool, bool, bool))
    requires
        date.wf(),
    ensures
        r.0 == workday_at(date.secs as int),
        r.1 == friday_at(date.secs as int),
        r.2 == last_workday_at(date.secs as int),
{
    (is_workday(date), is_friday(date), is_last_workday_of_month(date))
}

} // verus!
