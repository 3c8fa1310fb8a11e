use chrono::TimeZone;
use investment_notice::calendar::{
    get_time_info, is_friday, is_last_workday_of_month, is_workday, Timestamp,
};
use investment_notice::report::format_time_info;
use investment_notice::scheduler::{
    get_next_execution_time, next_execution_time, plan_next_run, wait_seconds, ScheduleMode,
};

fn at(y: i32, mo: u32, d: u32, h: u32, mi: u32, s: u32) -> Timestamp {
    Timestamp { secs: chrono::Utc.with_ymd_and_hms(y, mo, d, h, mi, s).unwrap().timestamp() }
}

#[test]
fn daily_from_saturday_moves_to_monday() {
    let next = get_next_execution_time("daily", at(2024, 6, 1, 10, 0, 0));
    assert_eq!(next, at(2024, 6, 3, 20, 0, 0));
}

#[test]
fn daily_after_run_time_moves_to_next_day() {
    let next = get_next_execution_time("daily", at(2024, 6, 5, 21, 0, 0));
    assert_eq!(next, at(2024, 6, 6, 20, 0, 0));
}

#[test]
fn daily_before_run_time_stays_today() {
    let next = get_next_execution_time("daily", at(2024, 6, 5, 9, 30, 0));
    assert_eq!(next, at(2024, 6, 5, 20, 0, 0));
}

#[test]
fn daily_exactly_at_run_time_is_strictly_later() {
    let next = get_next_execution_time("daily", at(2024, 6, 7, 20, 0, 0));
    assert_eq!(next, at(2024, 6, 10, 20, 0, 0));
}

#[test]
fn daily_runs_are_future_workdays_at_twenty() {
    let mut now = at(2024, 1, 1, 0, 0, 0);
    for _ in 0..400 {
        let next = get_next_execution_time("daily", now);
        assert!(next.secs > now.secs);
        assert!(is_workday(next));
        assert_eq!(next.secs.rem_euclid(86400), 72000);
        now = Timestamp { secs: now.secs + 7919 * 3 };
    }
}

#[test]
fn weekly_runs_on_next_friday() {
    assert_eq!(get_next_execution_time("weekly", at(2024, 6, 5, 21, 0, 0)), at(2024, 6, 7, 20, 0, 0));
    assert_eq!(get_next_execution_time("weekly", at(2024, 6, 7, 20, 0, 0)), at(2024, 6, 14, 20, 0, 0));
    assert_eq!(get_next_execution_time("weekly", at(2024, 6, 7, 19, 59, 59)), at(2024, 6, 7, 20, 0, 0));
    assert_eq!(get_next_execution_time("weekly", at(2024, 6, 8, 1, 0, 0)), at(2024, 6, 14, 20, 0, 0));
}

#[test]
fn weekly_runs_are_future_fridays_at_twenty() {
    let mut now = at(2023, 12, 1, 0, 0, 0);
    for _ in 0..400 {
        let next = get_next_execution_time("weekly", now);
        assert!(next.secs > now.secs);
        assert!(next.secs - now.secs <= 7 * 86400);
        assert!(is_friday(next));
        assert_eq!(next.secs.rem_euclid(86400), 72000);
        now = Timestamp { secs: now.secs + 10007 * 3 };
    }
}

#[test]
fn monthly_runs_on_month_end_workday() {
    assert_eq!(get_next_execution_time("monthly", at(2024, 6, 1, 10, 0, 0)), at(2024, 6, 27, 20, 0, 0));
    assert_eq!(get_next_execution_time("monthly", at(2024, 6, 27, 21, 0, 0)), at(2024, 6, 28, 20, 0, 0));
    assert_eq!(get_next_execution_time("monthly", at(2024, 6, 28, 21, 0, 0)), at(2024, 7, 29, 20, 0, 0));
}

#[test]
fn unknown_mode_runs_daily() {
    let now = at(2024, 6, 1, 10, 0, 0);
    assert_eq!(get_next_execution_time("hourly", now), get_next_execution_time("daily", now));
    assert_eq!(ScheduleMode::from_name("hourly"), ScheduleMode::Daily);
    assert_eq!(ScheduleMode::from_name("weekly"), ScheduleMode::Weekly);
    assert_eq!(ScheduleMode::from_name("monthly"), ScheduleMode::Monthly);
    assert_eq!(ScheduleMode::from_name("daily"), ScheduleMode::Daily);
}

#[test]
fn workday_is_monday_to_friday() {
    // 2024-06-03 is a Monday.
    for d in 0..14u32 {
        let t = at(2024, 6, 3 + d, 12, 0, 0);
        let weekend = d % 7 == 5 || d % 7 == 6;
        assert_eq!(is_workday(t), !weekend);
        assert_eq!(is_friday(t), d % 7 == 4);
    }
    assert!(is_workday(at(2024, 6, 3, 0, 0, 0)));
    assert!(!is_workday(at(2024, 6, 2, 23, 59, 59)));
}

#[test]
fn workday_before_epoch() {
    // 1969-12-31 was a Wednesday, 1969-12-28 a Sunday.
    assert!(is_workday(at(1969, 12, 31, 23, 0, 0)));
    assert!(!is_workday(at(1969, 12, 28, 1, 0, 0)));
    assert!(is_friday(at(1969, 12, 26, 1, 0, 0)));
}

#[test]
fn month_end_heuristic() {
    assert!(!is_last_workday_of_month(at(2024, 6, 26, 20, 0, 0)));
    assert!(is_last_workday_of_month(at(2024, 6, 27, 20, 0, 0)));
    assert!(is_last_workday_of_month(at(2024, 6, 28, 20, 0, 0)));
    assert!(!is_last_workday_of_month(at(2024, 6, 29, 20, 0, 0)));
    assert!(!is_last_workday_of_month(at(2024, 6, 30, 20, 0, 0)));
    assert!(is_last_workday_of_month(at(2024, 12, 30, 20, 0, 0)));
    assert!(!is_last_workday_of_month(at(2024, 12, 31, 20, 0, 0)));
    assert!(is_last_workday_of_month(at(2024, 2, 27, 20, 0, 0)));
}

#[test]
fn time_info_triple() {
    assert_eq!(get_time_info(at(2024, 6, 28, 20, 0, 0)), (true, true, true));
    assert_eq!(get_time_info(at(2024, 6, 29, 20, 0, 0)), (false, false, false));
    assert_eq!(get_time_info(at(2024, 6, 5, 20, 0, 0)), (true, false, false));
}

#[test]
fn time_info_text() {
    assert_eq!(
        format_time_info(at(2024, 6, 28, 7, 5, 9)),
        "Date: 2024-06-28 07:05:09, Weekday: Friday, Workday: Yes, Friday: Yes, Last workday of month: Yes"
    );
    assert_eq!(
        format_time_info(at(2024, 6, 1, 23, 59, 0)),
        "Date: 2024-06-01 23:59:00, Weekday: Saturday, Workday: No, Friday: No, Last workday of month: No"
    );
}

#[test]
fn wait_until_next_run() {
    let now = at(2024, 6, 5, 19, 0, 0);
    assert_eq!(wait_seconds(now, at(2024, 6, 5, 20, 0, 0)), 3600);
    assert_eq!(wait_seconds(now, at(2024, 6, 5, 18, 0, 0)), 60);
    assert_eq!(wait_seconds(now, now), 60);
    let plan = plan_next_run(ScheduleMode::Daily, now);
    assert_eq!(plan.next, at(2024, 6, 5, 20, 0, 0));
    assert_eq!(plan.wait_secs, 3600);
    assert_eq!(next_execution_time(ScheduleMode::Weekly, now), at(2024, 6, 7, 20, 0, 0));
}
