//! Plain-text reports of the daily, weekly and monthly summaries.
use crate::calendar::{
    civil_date_of, civil_of, epoch_day, friday_at, get_time_info, last_workday_at, weekday_index,
    weekday_of, workday_at, Timestamp, SECS_PER_DAY,
};
use crate::models::{DailyAnalysis, MonthlyAnalysis, Ratio, WeeklyAnalysis, PRICE_SCALE};
use vstd::prelude::*;
use vstd::string::StringExecFns;

verus! {

/// Bound on the magnitude of the parts of a quotient that `fixed2` renders.
pub const RATIO_LIMIT: i128 = 0x10_0000_0000_0000_0000_0000_0000;

/// The text of one decimal digit.
pub open spec fn digit_text(d: int) -> Seq<char> {
    if d == 0 {
        "0"@
    } else if d == 1 {
        "1"@
    } else if d == 2 {
        "2"@
    } else if d == 3 {
        "3"@
    } else if d == 4 {
        "4"@
    } else if d == 5 {
        "5"@
    } else if d == 6 {
        "6"@
    } else if d == 7 {
        "7"@
    } else if d == 8 {
        "8"@
    } else {
        "9"@
    }
}

/// Decimal digits of a natural number, without leading zeros.
pub open spec fn decimal(n: nat) -> Seq<char>
    decreases n,
{
    if n < 10 {
        digit_text(n as int)
    } else {
        decimal(n / 10) + digit_text((n % 10) as int)
    }
}

/// Decimal text of an integer, with a leading `-` when negative.
pub open spec fn signed_decimal(n: int) -> Seq<char> {
    if n < 0 {
        "-"@ + decimal((-n) as nat)
    } else {
        decimal(n as nat)
    }
}

/// Decimal digits of a number below 100, padded to two.
pub open spec fn two_digits(n: nat) -> Seq<char> {
    if n < 10 {
        "0"@ + decimal(n)
    } else {
        decimal(n)
    }
}

/// `q` rounded to the nearest integer, an exact tie to the even one, where
/// `q = n / b` with remainder `rem`.
pub open spec fn round_half_even(q: int, rem: int, b: int) -> int {
    if 2 * rem > b || (2 * rem == b && q % 2 == 1) {
        q + 1
    } else {
        q
    }
}

/// `num / den` rounded to two decimals, an exact tie to the even last digit;
/// `inf`, `-inf` or `NaN` when `den` is zero. The quotient is exact: where a
/// binary floating-point number would sit just off a tie (as `1.015` does),
/// this text rounds the exact value and may differ in the last digit.
pub open spec fn fixed2(r: Ratio) -> Seq<char> {
    if r.den == 0 {
        if r.num > 0 {
            "inf"@
        } else if r.num < 0 {
            "-inf"@
        } else {
            "NaN"@
        }
    } else {
        let a = if r.num < 0 {
            -r.num
        } else {
            r.num as int
        };
        let b = if r.den < 0 {
            -r.den
        } else {
            r.den as int
        };
        let scaled = round_half_even((100 * a) / b, (100 * a) % b, b);
        let sign = if (r.num < 0) != (r.den < 0) && r.num != 0 {
            "-"@
        } else {
            ""@
        };
        sign + decimal((scaled / 100) as nat) + "."@ + two_digits((scaled % 100) as nat)
    }
}

/// A price in ticks, to two decimals of the currency unit.
pub open spec fn price_text(ticks: u64) -> Seq<char> {
    fixed2(Ratio { num: ticks as i128, den: PRICE_SCALE as i128 })
}

pub open spec fn ratio_in_limit(r: Ratio) -> bool {
    -RATIO_LIMIT < r.num < RATIO_LIMIT && -RATIO_LIMIT < r.den < RATIO_LIMIT
}

/// Decimal digits of a number below 10000, padded to four.
pub open spec fn four_digits(n: nat) -> Seq<char> {
    if n < 10 {
        "000"@ + decimal(n)
    } else if n < 100 {
        "00"@ + decimal(n)
    } else if n < 1000 {
        "0"@ + decimal(n)
    } else {
        decimal(n)
    }
}

/// The `YYYY-MM-DD` text of the civil date of an instant.
pub open spec fn date_text(t: Timestamp) -> Seq<char> {
    let (y, m, d) = civil_of(epoch_day(t.secs as int));
    four_digits(y as nat) + "-"@ + two_digits(m as nat) + "-"@ + two_digits(d as nat)
}

pub open spec fn daily_report(a: DailyAnalysis, ai: Seq<char>) -> Seq<char> {
    "📊 CSI 300 ETF Daily Analysis Report\n\n📅 Date: "@ + date_text(a.date)
        + "\n\n💰 Current Price: "@ + price_text(a.current_price) + " CNY\n📈 Price Change: "@
        + fixed2(a.price_change_pct) + "%\n📊 Relative to High: "@ + fixed2(a.relative_to_high)
        + "%\n📉 Relative to Low: "@ + fixed2(a.relative_to_low) + "%\n\n🤖 AI Analysis:\n"@ + ai
        + "\n"@
}

pub open spec fn weekly_report(a: WeeklyAnalysis, ai: Seq<char>) -> Seq<char> {
    "📈 CSI 300 ETF Weekly Analysis Report\n\n📅 Period: "@ + date_text(a.start_date) + " to "@
        + date_text(a.end_date) + "\n\n💰 Start Price: "@ + price_text(a.start_price)
        + " CNY\n💰 End Price: "@ + price_text(a.end_price) + " CNY\n📈 Weekly Change: "@
        + fixed2(a.weekly_change_pct) + "%\n📊 Highest: "@ + price_text(a.highest_price)
        + " CNY ("@ + date_text(a.highest_date) + ")\n📉 Lowest: "@ + price_text(a.lowest_price)
        + " CNY ("@ + date_text(a.lowest_date) + ")\n\n🤖 AI Analysis:\n"@ + ai + "\n"@
}

pub open spec fn monthly_report(a: MonthlyAnalysis, ai: Seq<char>) -> Seq<char> {
    "📊 CSI 300 ETF Monthly Analysis Report\n\n📅 Month: "@ + signed_decimal(a.year as int) + "-"@
        + signed_decimal(a.month as int) + "\n\n💰 Start Price: "@ + price_text(a.start_price)
        + " CNY\n💰 End Price: "@ + price_text(a.end_price) + " CNY\n📈 Monthly Change: "@
        + fixed2(a.monthly_change_pct) + "%\n📊 Highest: "@ + price_text(a.highest_price)
        + " CNY ("@ + date_text(a.highest_date) + ")\n📉 Lowest: "@ + price_text(a.lowest_price)
        + " CNY ("@ + date_text(a.lowest_date) + ")\n\n🤖 AI Analysis:\n"@ + ai + "\n"@
}

fn digit_str(d: u128) -> (r: &'static str)
    requires
        d < 10,
    ensures
        r@ == digit_text(d as int),
{
    if d == 0 {
        "0"
    } else if d == 1 {
        "1"
    } else if d == 2 {
        "2"
    } else if d == 3 {
        "3"
    } else if d == 4 {
        "4"
    } else if d == 5 {
        "5"
    } else if d == 6 {
        "6"
    } else if d == 7 {
        "7"
    } else if d == 8 {
        "8"
    } else {
        "9"
    }
}

/// Appends the decimal digits of `n`.
fn push_decimal(out: &mut String, n: u128)
    ensures
        final(out)@ == old(out)@ + decimal(n as nat),
    decreases n,
{
    if n >= 10 {
        push_decimal(out, n / 10);
        out.append(digit_str(n % 10));
        proof {
            assert(final(out)@ =~= old(out)@ + decimal(n as nat));
        }
    } else {
        out.append(digit_str(n));
    }
}

fn push_signed_decimal(out: &mut String, n: i64)
    ensures
        final(out)@ == old(out)@ + signed_decimal(n as int),
{
    if n < 0 {
        out.append("-");
        push_decimal(out, (0 - n as i128) as u128);
        proof {
            assert(final(out)@ =~= old(out)@ + signed_decimal(n as int));
        }
    } else {
        push_decimal(out, n as u128);
    }
}

fn push_two_digits(out: &mut String, n: u128)
    requires
        n < 100,
    ensures
        final(out)@ == old(out)@ + two_digits(n as nat),
{
    if n < 10 {
        out.append("0");
        push_decimal(out, n);
        proof {
            assert(final(out)@ =~= old(out)@ + two_digits(n as nat));
        }
    } else {
        push_decimal(out, n);
    }
}

/// Appends `num / den` rounded to two decimals.
fn push_fixed2(out: &mut String, r: Ratio)
    requires
        ratio_in_limit(r),
    ensures
        final(out)@ == old(out)@ + fixed2(r),
{
    if r.den == 0 {
        if r.num > 0 {
            out.append("inf");
        } else if r.num < 0 {
            out.append("-inf");
        } else {
            out.append("NaN");
        }
        return;
    }
    let a: u128 = if r.num < 0 {
        (0 - r.num) as u128
    } else {
        r.num as u128
    };
    let b: u128 = if r.den < 0 {
        (0 - r.den) as u128
    } else {
        r.den as u128
    };
    let q: u128 = (100 * a) / b;
    let rem: u128 = (100 * a) % b;
    let scaled: u128 = if 2 * rem > b || (2 * rem == b && q % 2 == 1) {
        q + 1
    } else {
        q
    };
    let ghost start = out@;
    if (r.num < 0) != (r.den < 0) && r.num != 0 {
        out.append("-");
    } else {
        out.append("");
    }
    push_decimal(out, scaled / 100);
    out.append(".");
    push_two_digits(out, scaled % 100);
    proof {
        assert(final(out)@ =~= start + fixed2(r));
    }
}

fn push_price(out: &mut String, ticks: u64)
    ensures
        final(out)@ == old(out)@ + price_text(ticks),
{
    push_fixed2(out, Ratio { num: ticks as i128, den: PRICE_SCALE as i128 });
}

fn push_four_digits(out: &mut String, n: u128)
    requires
        n < 10000,
    ensures
        final(out)@ == old(out)@ + four_digits(n as nat),
{
    let ghost start = out@;
    if n < 10 {
        out.append("000");
        push_decimal(out, n);
    } else if n < 100 {
        out.append("00");
        push_decimal(out, n);
    } else if n < 1000 {
        out.append("0");
        push_decimal(out, n);
    } else {
        push_decimal(out, n);
    }
    proof {
        assert(final(out)@ =~= start + four_digits(n as nat));
    }
}

fn push_date(out: &mut String, t: Timestamp)
    requires
        t.wf(),
    ensures
        final(out)@ == old(out)@ + date_text(t),
{
    let (y, m, d) = civil_date_of(t);
    let ghost start = out@;
    push_four_digits(out, y as u128);
    out.append("-");
    push_two_digits(out, m as u128);
    out.append("-");
    push_two_digits(out, d as u128);
    proof {
        assert(final(out)@ =~= start + date_text(t));
    }
}

/// The daily report: the date, the close, the change and the position within
/// the series' range, then the generated commentary.
pub fn format_daily_report(analysis: &DailyAnalysis, gemini_analysis: &str) -> (r: String)
    requires
        analysis.date.wf(),
        ratio_in_limit(analysis.price_change_pct),
        ratio_in_limit(analysis.relative_to_high),
        ratio_in_limit(analysis.relative_to_low),
    ensures
        r@ == daily_report(*analysis, gemini_analysis@),
{
    let mut out = String::new();
    out.append("📊 CSI 300 ETF Daily Analysis Report\n\n📅 Date: ");
    push_date(&mut out, analysis.date);
    out.append("\n\n💰 Current Price: ");
    push_price(&mut out, analysis.current_price);
    out.append(" CNY\n📈 Price Change: ");
    push_fixed2(&mut out, analysis.price_change_pct);
    out.append("%\n📊 Relative to High: ");
    push_fixed2(&mut out, analysis.relative_to_high);
    out.append("%\n📉 Relative to Low: ");
    push_fixed2(&mut out, analysis.relative_to_low);
    out.append("%\n\n🤖 AI Analysis:\n");
    out.append(gemini_analysis);
    out.append("\n");
    out
}

/// The weekly report: the period, its first and last close, its change and
/// its extremes with their dates, then the generated commentary.
pub fn format_weekly_report(analysis: &WeeklyAnalysis, gemini_analysis: &str) -> (r: String)
    requires
        analysis.start_date.wf(),
        analysis.end_date.wf(),
        analysis.highest_date.wf(),
        analysis.lowest_date.wf(),
        ratio_in_limit(analysis.weekly_change_pct),
    ensures
        r@ == weekly_report(*analysis, gemini_analysis@),
{
    let mut out = String::new();
    out.append("📈 CSI 300 ETF Weekly Analysis Report\n\n📅 Period: ");
    push_date(&mut out, analysis.start_date);
    out.append(" to ");
    push_date(&mut out, analysis.end_date);
    out.append("\n\n💰 Start Price: ");
    push_price(&mut out, analysis.start_price);
    out.append(" CNY\n💰 End Price: ");
    push_price(&mut out, analysis.end_price);
    out.append(" CNY\n📈 Weekly Change: ");
    push_fixed2(&mut out, analysis.weekly_change_pct);
    out.append("%\n📊 Highest: ");
    push_price(&mut out, analysis.highest_price);
    out.append(" CNY (");
    push_date(&mut out, analysis.highest_date);
    out.append(")\n📉 Lowest: ");
    push_price(&mut out, analysis.lowest_price);
    out.append(" CNY (");
    push_date(&mut out, analysis.lowest_date);
    out.append(")\n\n🤖 AI Analysis:\n");
    out.append(gemini_analysis);
    out.append("\n");
    out
}

/// The monthly report: the year and month, the first and last close, the
/// change and the extremes with their dates, then the generated commentary.
pub fn format_monthly_report(analysis: &MonthlyAnalysis, gemini_analysis: &str) -> (r: String)
    requires
        analysis.highest_date.wf(),
        analysis.lowest_date.wf(),
        ratio_in_limit(analysis.monthly_change_pct),
    ensures
        r@ == monthly_report(*analysis, gemini_analysis@),
{
    let mut out = String::new();
    out.append("📊 CSI 300 ETF Monthly Analysis Report\n\n📅 Month: ");
    push_signed_decimal(&mut out, analysis.year as i64);
    out.append("-");
    push_signed_decimal(&mut out, analysis.month as i64);
    out.append("\n\n💰 Start Price: ");
    push_price(&mut out, analysis.start_price);
    out.append(" CNY\n💰 End Price: ");
    push_price(&mut out, analysis.end_price);
    out.append(" CNY\n📈 Monthly Change: ");
    push_fixed2(&mut out, analysis.monthly_change_pct);
    out.append("%\n📊 Highest: ");
    push_price(&mut out, analysis.highest_price);
    out.append(" CNY (");
    push_date(&mut out, analysis.highest_date);
    out.append(")\n📉 Lowest: ");
    push_price(&mut out, analysis.lowest_price);
    out.append(" CNY (");
    push_date(&mut out, analysis.lowest_date);
    out.append(")\n\n🤖 AI Analysis:\n");
    out.append(gemini_analysis);
    out.append("\n");
    out
}

/// English name of a weekday, 0 for Monday up to 6 for Sunday.
pub open spec fn weekday_name(w: int) -> Seq<char> {
    if w == 0 {
        "Monday"@
    } else if w == 1 {
        "Tuesday"@
    } else if w == 2 {
        "Wednesday"@
    } else if w == 3 {
        "Thursday"@
    } else if w == 4 {
        "Friday"@
    } else if w == 5 {
        "Saturday"@
    } else {
        "Sunday"@
    }
}

pub open spec fn yes_no(b: bool) -> Seq<char> {
    if b {
        "Yes"@
    } else {
        "No"@
    }
}

/// `HH:MM:SS` of the instant.
pub open spec fn clock_text(secs: int) -> Seq<char> {
    let s = secs % 86400;
    two_digits((s / 3600) as nat) + ":"@ + two_digits((s % 3600 / 60) as nat) + ":"@ + two_digits(
        (s % 60) as nat,
    )
}

pub open spec fn time_info_text(t: Timestamp) -> Seq<char> {
    "Date: "@ + date_text(t) + " "@ + clock_text(t.secs as int) + ", Weekday: "@ + weekday_name(
        weekday_of(t.secs as int),
    ) + ", Workday: "@ + yes_no(workday_at(t.secs as int)) + ", Friday: "@ + yes_no(
        friday_at(t.secs as int),
    ) + ", Last workday of month: "@ + yes_no(last_workday_at(t.secs as int))
}

fn weekday_str(w: i64) -> (r: &'static str)
    ensures
        r@ == weekday_name(w as int),
{
    if w == 0 {
        "Monday"
    } else if w == 1 {
        "Tuesday"
    } else if w == 2 {
        "Wednesday"
    } else if w == 3 {
        "Thursday"
    } else if w == 4 {
        "Friday"
    } else if w == 5 {
        "Saturday"
    } else {
        "Sunday"
    }
}

fn yes_no_str(b: bool) -> (r: &'static str)
    ensures
        r@ == yes_no(b),
{
    if b {
        "Yes"
    } else {
        "No"
    }
}

/// One line describing an instant: its date and time, weekday, and whether it
/// is a workday, a Friday and a month-end workday.
#[verifier::rlimit(50)]
pub fn format_time_info(date: Timestamp) -> (r: String)
    requires
        date.wf(),
    ensures
        r@ == time_info_text(date),
{
    let (is_workday, is_friday, is_last_workday) = get_time_info(date);
    let mut out = String::new();
    out.append("Date: ");
    push_date(&mut out, date);
    out.append(" ");
    let m: i64 = date.secs % SECS_PER_DAY;
    let s: i64 = if m < 0 {
        m + SECS_PER_DAY
    } else {
        m
    };
    proof {
        crate::calendar::lemma_day_bounds(date.secs as int);
        assert(s == date.secs % 86400) by {
            vstd::arithmetic::div_mod::lemma_fundamental_div_mod_converse(
                date.secs as int,
                86400,
                (date.secs - s) / 86400,
                s as int,
            );
        }
    }
    push_two_digits(&mut out, (s / 3600) as u128);
    out.append(":");
    push_two_digits(&mut out, (s % 3600 / 60) as u128);
    out.append(":");
    push_two_digits(&mut out, (s % 60) as u128);
    out.append(", Weekday: ");
    out.append(weekday_str(weekday_index(date)));
    out.append(", Workday: ");
    out.append(yes_no_str(is_workday));
    out.append(", Friday: ");
    out.append(yes_no_str(is_friday));
    out.append(", Last workday of month: ");
    out.append(yes_no_str(is_last_workday));
    out
}

} // verus!
