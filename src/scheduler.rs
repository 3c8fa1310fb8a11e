//! When the periodic report runs: the next run instant for each schedule mode,
//! and the wait before it.
use crate::calendar::{
    day_at, epoch_day, epoch_day_of, friday_at, is_friday, is_last_workday_of_month,
    is_workday, last_workday_at, lemma_day_at, lemma_day_bounds, lemma_next_day,
    lemma_same_second, weekday_of, workday_at, Timestamp, MAX_SECS, SECS_PER_DAY,
};
use vstd::prelude::*;

verus! {

/// Second of the day at which every run happens: 20:00:00 UTC.
pub const RUN_SECOND: i64 = 72000;

/// How many days ahead the monthly schedule looks for a month-end workday.
pub const MONTH_SEARCH_DAYS: i64 = 62;

/// Wait used when the next run is not later than the current instant.
pub const FALLBACK_WAIT_SECS: i64 = 60;

/// Pause after each run before the next one is computed.
pub const COOL_DOWN_SECS: u64 = 5;

#[derive(Clone, Copy, Debug, PartialEq, Eq, Structural)]
pub enum ScheduleMode {
    Daily,
    Weekly,
    Monthly,
}

/// The mode a name selects; any name but `weekly` and `monthly` selects daily.
pub open spec fn mode_of(name: Seq<char>) -> ScheduleMode {
    if name == "weekly"@ {
        ScheduleMode::Weekly
    } else if name == "monthly"@ {
        ScheduleMode::Monthly
    } else {
        ScheduleMode::Daily
    }
}

pub open spec fn at_run_second(t: int) -> bool {
    t % 86400 == RUN_SECOND
}

/// `r` is the earliest 20:00 UTC instant on a workday strictly after `now`.
pub open spec fn is_next_daily(now: int, r: int) -> bool {
    &&& now < r
    &&& at_run_second(r)
    &&& workday_at(r)
    &&& forall|t: int| now < t < r && at_run_second(t) ==> !workday_at(t)
}

/// `r` is the earliest Friday 20:00 UTC instant strictly after `now`.
pub open spec fn is_next_weekly(now: int, r: int) -> bool {
    &&& now < r
    &&& at_run_second(r)
    &&& friday_at(r)
    &&& forall|t: int| now < t < r && at_run_second(t) ==> !friday_at(t)
}

/// The 20:00 UTC instant `k` days after the day of `now`.
pub open spec fn run_after(now: int, k: int) -> int {
    day_at(epoch_day(now) + k, RUN_SECOND as int)
}

/// A monthly candidate qualifies when it is in range and passes the month-end heuristic.
pub open spec fn month_end_run(t: int) -> bool {
    t <= MAX_SECS && last_workday_at(t)
}

/// `r` is the first 20:00 UTC instant, from the day after `now` on, that passes
/// the month-end heuristic; when none of the next `MONTH_SEARCH_DAYS` days does,
/// the instant just past that horizon.
pub open spec fn is_next_monthly(now: int, r: int) -> bool {
    ||| exists|k: int|
        1 <= k <= MONTH_SEARCH_DAYS && r == run_after(now, k) && month_end_run(r)
            && forall|j: int| 1 <= j < k ==> !month_end_run(#[trigger] run_after(now, j))
    ||| (forall|j: int| 1 <= j <= MONTH_SEARCH_DAYS ==> !month_end_run(#[trigger] run_after(now, j)))
        && r == run_after(now, MONTH_SEARCH_DAYS + 1)
}

pub open spec fn is_next_run(mode: ScheduleMode, now: int, r: int) -> bool {
    match mode {
        ScheduleMode::Daily => is_next_daily(now, r),
        ScheduleMode::Weekly => is_next_weekly(now, r),
        ScheduleMode::Monthly => is_next_monthly(now, r),
    }
}

/// Days still to step from a weekend day to Monday.
spec fn weekend_left(t: int) -> int {
    if weekday_of(t) >= 5 {
        7 - weekday_of(t)
    } else {
        0
    }
}

/// Days still to step to the next Friday after `now`.
spec fn days_to_friday(now: int, t: int) -> int {
    if t > now {
        (11 - weekday_of(t)) % 7
    } else {
        7 + (11 - weekday_of(t)) % 7
    }
}

/// 20:00 UTC on the day of `now`.
fn run_time_today(now: Timestamp) -> (r: i64)
    requires
        now.wf(),
    ensures
        r as int == run_after(now.secs as int, 0),
        at_run_second(r as int),
        now.secs - 86400 < r <= now.secs + 86400,
        forall|t: int| t < r && at_run_second(t) ==> t <= now.secs,
{
    let d = epoch_day_of(now.secs);
    proof {
        lemma_day_bounds(now.secs as int);
        lemma_day_at(d as int, RUN_SECOND as int);
        assert forall|t: int| t < d * 86400 + RUN_SECOND && at_run_second(t) implies t <= now.secs by {
            lemma_same_second(t, d * 86400 + RUN_SECOND);
        }
    }
    d * SECS_PER_DAY + RUN_SECOND
}

/// Next run of the daily schedule: the next workday at 20:00 UTC.
pub fn next_daily_run(now: Timestamp) -> (r: Timestamp)
    requires
        now.wf(),
    ensures
        is_next_daily(now.secs as int, r.secs as int),
{
    let mut next = Timestamp { secs: run_time_today(now) };
    if next.secs <= now.secs {
        proof {
            lemma_next_day(next.secs as int);
            assert forall|t: int| now.secs < t < next.secs + 86400 && at_run_second(t) implies !workday_at(t) by {
                lemma_same_second(t, next.secs + 86400);
            }
        }
        next = Timestamp { secs: next.secs + SECS_PER_DAY };
    }
    proof {
        lemma_next_day(next.secs as int);
    }
    while !is_workday(next)
        invariant
            now.wf(),
            now.secs < next.secs,
            at_run_second(next.secs as int),
            next.secs + 86400 * weekend_left(next.secs as int) <= now.secs + 86400 * 3,
            forall|t: int| now.secs < t < next.secs && at_run_second(t) ==> !workday_at(t),
        decreases weekend_left(next.secs as int),
    {
        proof {
            lemma_next_day(next.secs as int);
            lemma_next_day(next.secs as int + 86400);
            assert forall|t: int| now.secs < t < next.secs + 86400 && at_run_second(t) implies !workday_at(t) by {
                if t > next.secs {
                    lemma_same_second(next.secs as int, t);
                }
            }
        }
        next = Timestamp { secs: next.secs + SECS_PER_DAY };
    }
    next
}

/// Next run of the weekly schedule: the next Friday at 20:00 UTC.
pub fn next_weekly_run(now: Timestamp) -> (r: Timestamp)
    requires
        now.wf(),
    ensures
        is_next_weekly(now.secs as int, r.secs as int),
{
    let mut next = Timestamp { secs: run_time_today(now) };
    proof {
        lemma_next_day(next.secs as int);
    }
    while !is_friday(next) || next.secs <= now.secs
        invariant
            now.wf(),
            now.secs - 86400 < next.secs,
            at_run_second(next.secs as int),
            next.secs + 86400 * days_to_friday(now.secs as int, next.secs as int) <= now.secs + 86400 * 14,
            forall|t: int| now.secs < t < next.secs && at_run_second(t) ==> !friday_at(t),
        decreases days_to_friday(now.secs as int, next.secs as int),
    {
        proof {
            lemma_next_day(next.secs as int);
            lemma_next_day(next.secs as int + 86400);
            assert forall|t: int| now.secs < t < next.secs + 86400 && at_run_second(t) implies !friday_at(t) by {
                if t > next.secs {
                    lemma_same_second(next.secs as int, t);
                }
            }
        }
        next = Timestamp { secs: next.secs + SECS_PER_DAY };
    }
    next
}

/// Next run of the monthly schedule: from tomorrow on, the first 20:00 UTC
/// instant that passes the month-end heuristic.
pub fn next_monthly_run(now: Timestamp) -> (r: Timestamp)
    requires
        now.wf(),
    ensures
        is_next_monthly(now.secs as int, r.secs as int),
{
    let today = run_time_today(now);
    let mut k: i64 = 1;
    while k <= MONTH_SEARCH_DAYS
        invariant
            now.wf(),
            1 <= k <= MONTH_SEARCH_DAYS + 1,
            today as int == run_after(now.secs as int, 0),
            forall|j: int| 1 <= j < k ==> !month_end_run(#[trigger] run_after(now.secs as int, j)),
        decreases MONTH_SEARCH_DAYS + 1 - k,
    {
        let candidate = today + k * SECS_PER_DAY;
        assert(candidate == run_after(now.secs as int, k as int)) by (nonlinear_arith)
            requires
                today == epoch_day(now.secs as int) * 86400 + RUN_SECOND,
                candidate == today + k * 86400,
        ;
        if candidate <= MAX_SECS && is_last_workday_of_month(Timestamp { secs: candidate }) {
            return Timestamp { secs: candidate };
        }
        k = k + 1;
    }
    let last = today + (MONTH_SEARCH_DAYS + 1) * SECS_PER_DAY;
    assert(last == run_after(now.secs as int, MONTH_SEARCH_DAYS + 1)) by (nonlinear_arith)
        requires
            today == epoch_day(now.secs as int) * 86400 + RUN_SECOND,
            last == today + 63 * 86400,
    ;
    Timestamp { secs: last }
}

/// The next run instant of a schedule mode after `now`.
pub fn next_execution_time(mode: ScheduleMode, now: Timestamp) -> (r: Timestamp)
    requires
        now.wf(),
    ensures
        is_next_run(mode, now.secs as int, r.secs as int),
{
    match mode {
        ScheduleMode::Daily => next_daily_run(now),
        ScheduleMode::Weekly => next_weekly_run(now),
        ScheduleMode::Monthly => next_monthly_run(now),
    }
}

impl ScheduleMode {
    /// The mode a name selects: `weekly`, `monthly`, and daily for every other name.
    pub fn from_name(name: &str) -> (r: ScheduleMode)
        ensures
            r == mode_of(name@),
    {
        let given: String = name.to_owned();
        let weekly: String = "weekly".to_owned();
        let monthly: String = "monthly".to_owned();
        if given.eq(&weekly) {
            ScheduleMode::Weekly
        } else if given.eq(&monthly) {
            ScheduleMode::Monthly
        } else {
            ScheduleMode::Daily
        }
    }
}

/// The next run instant after `current_time` for the mode that `mode` names;
/// an unknown name runs on the daily schedule.
pub fn get_next_execution_time(mode: &str, current_time: Timestamp) -> (r: Timestamp)
    requires
        current_time.wf(),
    ensures
        is_next_run(mode_of(mode@), current_time.secs as int, r.secs as int),
{
    next_execution_time(ScheduleMode::from_name(mode), current_time)
}

/// Seconds to wait from `now` until `next`; when `next` is not later than
/// `now`, the fallback wait.
pub fn wait_seconds(now: Timestamp, next: Timestamp) -> (r: i128)
    ensures
        next.secs > now.secs ==> r == next.secs - now.secs,
        next.secs <= now.secs ==> r == FALLBACK_WAIT_SECS,
{
    if next.secs > now.secs {
        next.secs as i128 - now.secs as i128
    } else {
        FALLBACK_WAIT_SECS as i128
    }
}

/// What the scheduler loop does next: sleep `wait_secs`, then run at `next`.
#[derive(Clone, Copy, Debug, PartialEq, Eq, Structural)]
pub struct RunPlan {
    pub next: Timestamp,
    pub wait_secs: i128,
}

/// One step of the scheduler loop: given the mode and the current instant,
/// the next run instant and the wait before it.
pub fn plan_next_run(mode: ScheduleMode, now: Timestamp) -> (r: RunPlan)
    requires
        now.wf(),
    ensures
        is_next_run(mode, now.secs as int, r.next.secs as int),
        r.next.secs > now.secs ==> r.wait_secs == r.next.secs - now.secs,
        r.next.secs <= now.secs ==> r.wait_secs == FALLBACK_WAIT_SECS,
{
    let next = next_execution_time(mode, now);
    RunPlan { next, wait_secs: wait_seconds(now, next) }
}

/// The three mode names select their own modes.
pub proof fn lemma_mode_names()
    ensures
        mode_of("daily"@) == ScheduleMode::Daily,
        mode_of("weekly"@) == ScheduleMode::Weekly,
        mode_of("monthly"@) == ScheduleMode::Monthly,
{
    reveal_strlit("daily");
    reveal_strlit("weekly");
    reveal_strlit("monthly");
    assert("daily"@.len() != "weekly"@.len());
    assert("daily"@.len() != "monthly"@.len());
    assert("weekly"@.len() != "monthly"@.len());
}

/// The daily schedule runs strictly after `now`, on a workday, at 20:00:00 UTC,
/// and no earlier 20:00 UTC instant after `now` falls on a workday.
pub proof fn lemma_daily_schedule(now: Timestamp, r: Timestamp)
    requires
        is_next_run(mode_of("daily"@), now.secs as int, r.secs as int),
    ensures
        now.secs < r.secs,
        workday_at(r.secs as int),
        r.secs % 86400 == 72000,
        forall|t: int| now.secs < t < r.secs && at_run_second(t) ==> !workday_at(t),
{
    lemma_mode_names();
}

/// The weekly schedule runs on the first Friday strictly after `now`, at 20:00:00 UTC.
pub proof fn lemma_weekly_schedule(now: Timestamp, r: Timestamp)
    requires
        is_next_run(mode_of("weekly"@), now.secs as int, r.secs as int),
    ensures
        now.secs < r.secs,
        friday_at(r.secs as int),
        r.secs % 86400 == 72000,
        forall|t: int| now.secs < t < r.secs && at_run_second(t) ==> !friday_at(t),
{
    lemma_mode_names();
}

} // verus!
