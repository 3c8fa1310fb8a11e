//! Daily, weekly and monthly summaries of a price series, and the moving
//! average and RSI indicators over its closes.
use crate::calendar::{civil_date_of, civil_of, epoch_day, Timestamp};
use crate::models::{
    change_pct, ratio, DailyAnalysis, MonthlyAnalysis, Ratio, StockData, WeeklyAnalysis,
    MAX_PRICE,
};
use vstd::prelude::*;

verus! {

/// Why an analysis could not be made.
#[derive(Clone, Copy, Debug, PartialEq, Eq, Structural)]
pub enum AnalysisError {
    /// The series holds no points.
    EmptyInput,
}

/// `v` is the largest `high` of the series.
pub open spec fn is_max_high(s: Seq<StockData>, v: int) -> bool {
    &&& forall|i: int| 0 <= i < s.len() ==> s[i].high <= v
    &&& exists|i: int| 0 <= i < s.len() && s[i].high == v
}

/// `v` is the smallest `low` of the series.
pub open spec fn is_min_low(s: Seq<StockData>, v: int) -> bool {
    &&& forall|i: int| 0 <= i < s.len() ==> v <= s[i].low
    &&& exists|i: int| 0 <= i < s.len() && s[i].low == v
}

/// `k` is the first index at which the series reaches its largest `high`.
pub open spec fn is_first_highest(s: Seq<StockData>, k: int) -> bool {
    &&& 0 <= k < s.len()
    &&& forall|i: int| 0 <= i < s.len() ==> s[i].high <= s[k].high
    &&& forall|i: int| 0 <= i < k ==> s[i].high < s[k].high
}

/// `k` is the first index at which the series reaches its smallest `low`.
pub open spec fn is_first_lowest(s: Seq<StockData>, k: int) -> bool {
    &&& 0 <= k < s.len()
    &&& forall|i: int| 0 <= i < s.len() ==> s[k].low <= s[i].low
    &&& forall|i: int| 0 <= i < k ==> s[k].low < s[i].low
}

/// Sum of the volumes of the series.
pub open spec fn volume_sum(s: Seq<StockData>) -> int
    decreases s.len(),
{
    if s.len() == 0 {
        0
    } else {
        volume_sum(s.drop_last()) + s.last().volume
    }
}

/// Sum of the closes at indices `lo` up to, not including, `hi`.
pub open spec fn close_sum(s: Seq<StockData>, lo: int, hi: int) -> int
    decreases hi - lo,
{
    if hi <= lo {
        0
    } else {
        close_sum(s, lo, hi - 1) + s[hi - 1].close
    }
}

/// Rise of the close from index `i` to index `i + 1`, or zero.
pub open spec fn gain_at(s: Seq<StockData>, i: int) -> int {
    if s[i + 1].close > s[i].close {
        s[i + 1].close - s[i].close
    } else {
        0
    }
}

/// Fall of the close from index `i` to index `i + 1`, or zero.
pub open spec fn loss_at(s: Seq<StockData>, i: int) -> int {
    if s[i + 1].close > s[i].close {
        0
    } else {
        s[i].close - s[i + 1].close
    }
}

/// Sum of the gains of the steps `lo` up to, not including, `hi`.
pub open spec fn gain_sum(s: Seq<StockData>, lo: int, hi: int) -> int
    decreases hi - lo,
{
    if hi <= lo {
        0
    } else {
        gain_sum(s, lo, hi - 1) + gain_at(s, hi - 1)
    }
}

/// Sum of the losses of the steps `lo` up to, not including, `hi`.
pub open spec fn loss_sum(s: Seq<StockData>, lo: int, hi: int) -> int
    decreases hi - lo,
{
    if hi <= lo {
        0
    } else {
        loss_sum(s, lo, hi - 1) + loss_at(s, hi - 1)
    }
}

pub open spec fn closes_in_range(s: Seq<StockData>) -> bool {
    forall|i: int| 0 <= i < s.len() ==> s[i].close <= MAX_PRICE
}

pub open spec fn dates_in_range(s: Seq<StockData>) -> bool {
    forall|i: int| 0 <= i < s.len() ==> s[i].date.wf()
}

/// The daily summary of a non-empty series.
pub open spec fn is_daily_analysis(s: Seq<StockData>, r: DailyAnalysis) -> bool {
    let cur = s.last();
    let prev = if s.len() > 1 {
        s[s.len() - 2]
    } else {
        cur
    };
    &&& r.date == cur.date
    &&& r.current_price == cur.close
    &&& r.previous_price == prev.close
    &&& r.volume == cur.volume
    &&& r.price_change_pct == change_pct(prev.close as int, cur.close as int)
    &&& is_max_high(s, r.historical_high as int)
    &&& is_min_low(s, r.historical_low as int)
    &&& r.relative_to_high == ratio(
        (cur.close - r.historical_low) * 100,
        r.historical_high - r.historical_low,
    )
    &&& r.relative_to_low == ratio(
        (r.historical_high - cur.close) * 100,
        r.historical_high - r.historical_low,
    )
}

/// The fields shared by the weekly and monthly summaries of a non-empty series.
pub open spec fn is_period_summary(
    s: Seq<StockData>,
    start_date: Timestamp,
    end_date: Timestamp,
    start_price: u64,
    end_price: u64,
    change: Ratio,
    highest_price: u64,
    highest_date: Timestamp,
    lowest_price: u64,
    lowest_date: Timestamp,
    average_volume: Ratio,
    total_volume: u64,
) -> bool {
    &&& start_date == s[0].date
    &&& end_date == s.last().date
    &&& start_price == s[0].close
    &&& end_price == s.last().close
    &&& change == change_pct(s[0].close as int, s.last().close as int)
    &&& exists|k: int|
        is_first_highest(s, k) && highest_price == s[k].high && highest_date == s[k].date
    &&& exists|k: int|
        is_first_lowest(s, k) && lowest_price == s[k].low && lowest_date == s[k].date
    &&& total_volume == volume_sum(s)
    &&& average_volume == ratio(volume_sum(s), s.len() as int)
}

pub open spec fn is_weekly_analysis(s: Seq<StockData>, r: WeeklyAnalysis) -> bool {
    is_period_summary(
        s,
        r.start_date,
        r.end_date,
        r.start_price,
        r.end_price,
        r.weekly_change_pct,
        r.highest_price,
        r.highest_date,
        r.lowest_price,
        r.lowest_date,
        r.average_volume,
        r.total_volume,
    )
}

pub open spec fn is_monthly_analysis(s: Seq<StockData>, r: MonthlyAnalysis) -> bool {
    &&& is_period_summary(
        s,
        r.start_date,
        r.end_date,
        r.start_price,
        r.end_price,
        r.monthly_change_pct,
        r.highest_price,
        r.highest_date,
        r.lowest_price,
        r.lowest_date,
        r.average_volume,
        r.total_volume,
    )
    &&& civil_of(epoch_day(s.last().date.secs as int)).0 == r.year
    &&& civil_of(epoch_day(s.last().date.secs as int)).1 == r.month
}

proof fn lemma_volume_step(s: Seq<StockData>, i: int)
    requires
        0 <= i < s.len(),
    ensures
        volume_sum(s.take(i + 1)) == volume_sum(s.take(i)) + s[i].volume,
{
    assert(s.take(i + 1).drop_last() =~= s.take(i));
}

/// `100 * (to - from) / from` for two prices.
fn percent_change(from: u64, to: u64) -> (r: Ratio)
    ensures
        r == change_pct(from as int, to as int),
{
    Ratio { num: (to as i128 - from as i128) * 100, den: from as i128 }
}

/// Summary of the latest point of a series against the one before it and
/// against the whole series' range.
pub fn analyze_daily_data(data: &[StockData]) -> (r: Result<DailyAnalysis, AnalysisError>)
    ensures
        data@.len() == 0 <==> r == Err::<DailyAnalysis, AnalysisError>(AnalysisError::EmptyInput),
        r is Ok <==> data@.len() > 0,
        r is Ok ==> is_daily_analysis(data@, r->Ok_0),
        r is Ok ==> forall|i: int|
            0 <= i < data@.len() ==> data@[i].high <= r->Ok_0.historical_high
                && r->Ok_0.historical_low <= data@[i].low,
        r is Ok ==> r->Ok_0.relative_to_high.num + r->Ok_0.relative_to_low.num == 100
            * r->Ok_0.relative_to_high.den,
{
    if data.len() == 0 {
        return Err(AnalysisError::EmptyInput);
    }
    let n = data.len();
    let latest = data[n - 1];
    let previous = if n > 1 {
        data[n - 2]
    } else {
        latest
    };
    let price_change_pct = percent_change(previous.close, latest.close);
    let mut historical_high: u64 = data[0].high;
    let mut historical_low: u64 = data[0].low;
    let mut i: usize = 1;
    assert(data@.take(1)[0] == data@[0]);
    while i < n
        invariant
            n == data@.len(),
            1 <= i <= n,
            is_max_high(data@.take(i as int), historical_high as int),
            is_min_low(data@.take(i as int), historical_low as int),
        decreases n - i,
    {
        let point = data[i];
        if point.high > historical_high {
            historical_high = point.high;
        }
        if point.low < historical_low {
            historical_low = point.low;
        }
        proof {
            let t = data@.take(i as int);
            let t1 = data@.take(i as int + 1);
            assert(forall|j: int| 0 <= j < i ==> t1[j] == t[j]);
            assert(t1[i as int] == point);
            if historical_high != point.high {
                let w = choose|j: int| 0 <= j < t.len() && t[j].high == historical_high;
                assert(t1[w].high == historical_high);
            }
            if historical_low != point.low {
                let w = choose|j: int| 0 <= j < t.len() && t[j].low == historical_low;
                assert(t1[w].low == historical_low);
            }
        }
        i = i + 1;
    }
    assert(data@.take(n as int) =~= data@);
    let span: i128 = historical_high as i128 - historical_low as i128;
    let relative_to_high = Ratio {
        num: (latest.close as i128 - historical_low as i128) * 100,
        den: span,
    };
    let relative_to_low = Ratio {
        num: (historical_high as i128 - latest.close as i128) * 100,
        den: span,
    };
    Ok(
        DailyAnalysis {
            date: latest.date,
            current_price: latest.close,
            previous_price: previous.close,
            price_change_pct,
            relative_to_high,
            relative_to_low,
            historical_high,
            historical_low,
            volume: latest.volume,
        },
    )
}

/// Fields shared by the weekly and monthly summaries.
struct PeriodStats {
    start: StockData,
    end: StockData,
    change: Ratio,
    highest: StockData,
    lowest: StockData,
    average_volume: Ratio,
    total_volume: u64,
}

fn period_stats(data: &[StockData]) -> (r: PeriodStats)
    requires
        data@.len() > 0,
        volume_sum(data@) <= u64::MAX,
    ensures
        is_period_summary(
            data@,
            r.start.date,
            r.end.date,
            r.start.close,
            r.end.close,
            r.change,
            r.highest.high,
            r.highest.date,
            r.lowest.low,
            r.lowest.date,
            r.average_volume,
            r.total_volume,
        ),
        r.end == data@.last(),
{
    let n = data.len();
    let start = data[0];
    let end = data[n - 1];
    let change = percent_change(start.close, end.close);
    let mut hi: usize = 0;
    let mut lo: usize = 0;
    let mut total: u64 = 0;
    let mut i: usize = 0;
    while i < n
        invariant
            n == data@.len(),
            0 <= i <= n,
            i == 0 ==> hi == 0 && lo == 0,
            i > 0 ==> is_first_highest(data@.take(i as int), hi as int),
            i > 0 ==> is_first_lowest(data@.take(i as int), lo as int),
            hi < n,
            lo < n,
            total == volume_sum(data@.take(i as int)),
            volume_sum(data@) <= u64::MAX,
        decreases n - i,
    {
        let point = data[i];
        proof {
            lemma_volume_step(data@, i as int);
            lemma_volume_prefix_bound(data@, i as int + 1);
        }
        if i > 0 && point.high > data[hi].high {
            hi = i;
        }
        if i > 0 && point.low < data[lo].low {
            lo = i;
        }
        total = total + point.volume;
        proof {
            let t1 = data@.take(i as int + 1);
            assert(forall|j: int| 0 <= j <= i ==> t1[j] == data@[j]);
        }
        i = i + 1;
    }
    assert(data@.take(n as int) =~= data@);
    let average_volume = Ratio { num: total as i128, den: n as i128 };
    PeriodStats {
        start,
        end,
        change,
        highest: data[hi],
        lowest: data[lo],
        average_volume,
        total_volume: total,
    }
}

proof fn lemma_volume_prefix_bound(s: Seq<StockData>, i: int)
    requires
        0 <= i <= s.len(),
    ensures
        volume_sum(s.take(i)) <= volume_sum(s),
    decreases s.len() - i,
{
    if i < s.len() {
        lemma_volume_step(s, i);
        lemma_volume_prefix_bound(s, i + 1);
    } else {
        assert(s.take(i) =~= s);
    }
}

/// Summary of a week's series: its change from first to last close, its
/// extremes with the date each is first reached, and its volumes.
pub fn analyze_weekly_data(data: &[StockData]) -> (r: Result<WeeklyAnalysis, AnalysisError>)
    requires
        volume_sum(data@) <= u64::MAX,
    ensures
        data@.len() == 0 <==> r == Err::<WeeklyAnalysis, AnalysisError>(AnalysisError::EmptyInput),
        r is Ok <==> data@.len() > 0,
        r is Ok ==> is_weekly_analysis(data@, r->Ok_0),
{
    if data.len() == 0 {
        return Err(AnalysisError::EmptyInput);
    }
    let p = period_stats(data);
    Ok(
        WeeklyAnalysis {
            start_date: p.start.date,
            end_date: p.end.date,
            start_price: p.start.close,
            end_price: p.end.close,
            weekly_change_pct: p.change,
            highest_price: p.highest.high,
            highest_date: p.highest.date,
            lowest_price: p.lowest.low,
            lowest_date: p.lowest.date,
            average_volume: p.average_volume,
            total_volume: p.total_volume,
        },
    )
}

/// Summary of a month's series, as the weekly one, tagged with the year and
/// month of its last point.
pub fn analyze_monthly_data(data: &[StockData]) -> (r: Result<MonthlyAnalysis, AnalysisError>)
    requires
        volume_sum(data@) <= u64::MAX,
        dates_in_range(data@),
    ensures
        data@.len() == 0 <==> r == Err::<MonthlyAnalysis, AnalysisError>(AnalysisError::EmptyInput),
        r is Ok <==> data@.len() > 0,
        r is Ok ==> is_monthly_analysis(data@, r->Ok_0),
        r is Ok ==> 1 <= r->Ok_0.year <= 9999 && 1 <= r->Ok_0.month <= 12,
{
    if data.len() == 0 {
        return Err(AnalysisError::EmptyInput);
    }
    let p = period_stats(data);
    let (year, month, _day) = civil_date_of(p.end.date);
    Ok(
        MonthlyAnalysis {
            year,
            month,
            start_date: p.start.date,
            end_date: p.end.date,
            start_price: p.start.close,
            end_price: p.end.close,
            monthly_change_pct: p.change,
            highest_price: p.highest.high,
            highest_date: p.highest.date,
            lowest_price: p.lowest.low,
            lowest_date: p.lowest.date,
            average_volume: p.average_volume,
            total_volume: p.total_volume,
        },
    )
}

/// A summary of a single point starts and ends at it, changes by nothing,
/// has that point's high and low as its extremes, and its volume as average.
pub proof fn lemma_single_point_period(s: Seq<StockData>, r: WeeklyAnalysis)
    requires
        s.len() == 1,
        is_weekly_analysis(s, r),
    ensures
        r.start_date == r.end_date,
        r.start_price == r.end_price,
        r.weekly_change_pct.num == 0,
        r.highest_price == s[0].high,
        r.lowest_price == s[0].low,
        r.average_volume == ratio(s[0].volume as int, 1),
{
    assert(s.drop_last() =~= Seq::<StockData>::empty());
    assert(volume_sum(s.drop_last()) == 0);
}

/// The same for a monthly summary of a single point.
pub proof fn lemma_single_point_month(s: Seq<StockData>, r: MonthlyAnalysis)
    requires
        s.len() == 1,
        is_monthly_analysis(s, r),
    ensures
        r.start_date == r.end_date,
        r.start_price == r.end_price,
        r.monthly_change_pct.num == 0,
        r.highest_price == s[0].high,
        r.lowest_price == s[0].low,
        r.average_volume == ratio(s[0].volume as int, 1),
{
    assert(s.drop_last() =~= Seq::<StockData>::empty());
    assert(volume_sum(s.drop_last()) == 0);
}

/// Moving-average entry `i`: zero before the first full window, else the mean
/// of the `period` closes that end at index `i`.
pub open spec fn moving_average_at(s: Seq<StockData>, period: int, i: int) -> Ratio {
    if i < period - 1 {
        ratio(0, 1)
    } else {
        ratio(close_sum(s, i - period + 1, i + 1), period)
    }
}

/// RSI entry `j`, over the `period` steps from index `j` on: exactly 100 when
/// the window lost nothing, else `100 - 100 / (1 + gain / loss)`, which is
/// `100 * gain / (gain + loss)`.
pub open spec fn rsi_at(s: Seq<StockData>, period: int, j: int) -> Ratio {
    let g = gain_sum(s, j, j + period);
    let l = loss_sum(s, j, j + period);
    if l == 0 {
        ratio(100, 1)
    } else {
        ratio(100 * g, g + l)
    }
}

proof fn lemma_close_sum_bound(s: Seq<StockData>, lo: int, hi: int)
    requires
        closes_in_range(s),
        0 <= lo <= hi <= s.len(),
    ensures
        0 <= close_sum(s, lo, hi) <= (hi - lo) * MAX_PRICE,
    decreases hi - lo,
{
    if hi > lo {
        lemma_close_sum_bound(s, lo, hi - 1);
    }
}

proof fn lemma_move_sums_bound(s: Seq<StockData>, lo: int, hi: int)
    requires
        closes_in_range(s),
        0 <= lo <= hi,
        hi + 1 <= s.len(),
    ensures
        0 <= gain_sum(s, lo, hi) <= (hi - lo) * MAX_PRICE,
        0 <= loss_sum(s, lo, hi) <= (hi - lo) * MAX_PRICE,
    decreases hi - lo,
{
    if hi > lo {
        lemma_move_sums_bound(s, lo, hi - 1);
    }
}

/// Sum of the closes at indices `lo` up to, not including, `hi`.
fn window_close_sum(data: &[StockData], lo: usize, hi: usize) -> (r: i128)
    requires
        closes_in_range(data@),
        lo <= hi <= data@.len(),
    ensures
        r == close_sum(data@, lo as int, hi as int),
{
    let mut sum: i128 = 0;
    let mut k: usize = lo;
    while k < hi
        invariant
            closes_in_range(data@),
            lo <= k <= hi <= data@.len(),
            sum == close_sum(data@, lo as int, k as int),
        decreases hi - k,
    {
        proof {
            lemma_close_sum_bound(data@, lo as int, k as int + 1);
            assert((k + 1 - lo) * MAX_PRICE <= 0x1_0000_0000_0000_0000 * MAX_PRICE) by (nonlinear_arith)
                requires k + 1 - lo <= 0x1_0000_0000_0000_0000int;
        }
        sum = sum + data[k].close as i128;
        k = k + 1;
    }
    sum
}

/// Moving average of the closes over `period` points; entries before the first
/// full window are zero.
pub fn calculate_moving_average(data: &[StockData], period: usize) -> (r: Vec<Ratio>)
    requires
        period >= 1 || data@.len() == 0,
        closes_in_range(data@),
    ensures
        r@.len() == data@.len(),
        forall|i: int| 0 <= i < r@.len() ==> r@[i] == moving_average_at(data@, period as int, i),
        forall|i: int| 0 <= i < r@.len() && i < period - 1 ==> r@[i].num == 0,
{
    let mut averages: Vec<Ratio> = Vec::new();
    let mut i: usize = 0;
    while i < data.len()
        invariant
            period >= 1 || data@.len() == 0,
            closes_in_range(data@),
            i <= data@.len(),
            averages@.len() == i,
            forall|j: int| 0 <= j < i ==> averages@[j] == moving_average_at(data@, period as int, j),
        decreases data@.len() - i,
    {
        if i < period - 1 {
            averages.push(Ratio { num: 0, den: 1 });
        } else {
            let sum = window_close_sum(data, i + 1 - period, i + 1);
            averages.push(Ratio { num: sum, den: period as i128 });
        }
        i = i + 1;
    }
    averages
}

/// Sum of `v` at indices `lo` up to, not including, `hi`, where `v` holds the
/// gains (or the losses) of the series' steps.
fn window_move_sum(v: &Vec<u64>, lo: usize, hi: usize, Ghost(s): Ghost<Seq<StockData>>, Ghost(gains): Ghost<bool>) -> (r: i128)
    requires
        closes_in_range(s),
        lo <= hi <= v@.len(),
        v@.len() + 1 == s.len(),
        forall|k: int| 0 <= k < v@.len() ==> v@[k] == if gains { gain_at(s, k) } else { loss_at(s, k) },
    ensures
        r == if gains { gain_sum(s, lo as int, hi as int) } else { loss_sum(s, lo as int, hi as int) },
{
    let mut sum: i128 = 0;
    let mut k: usize = lo;
    while k < hi
        invariant
            closes_in_range(s),
            lo <= k <= hi <= v@.len(),
            v@.len() + 1 == s.len(),
            forall|k: int| 0 <= k < v@.len() ==> v@[k] == if gains { gain_at(s, k) } else { loss_at(s, k) },
            sum == if gains { gain_sum(s, lo as int, k as int) } else { loss_sum(s, lo as int, k as int) },
        decreases hi - k,
    {
        proof {
            lemma_move_sums_bound(s, lo as int, k as int + 1);
            assert((k + 1 - lo) * MAX_PRICE <= 0x1_0000_0000_0000_0000 * MAX_PRICE) by (nonlinear_arith)
                requires k + 1 - lo <= 0x1_0000_0000_0000_0000int;
        }
        sum = sum + v[k] as i128;
        k = k + 1;
    }
    sum
}

/// Relative strength index of the closes over windows of `period` steps; empty
/// when the series has fewer than `period + 1` points.
pub fn calculate_rsi(data: &[StockData], period: usize) -> (r: Vec<Ratio>)
    requires
        period >= 1 || data@.len() < period + 1,
        closes_in_range(data@),
    ensures
        data@.len() < period + 1 ==> r@.len() == 0,
        data@.len() >= period + 1 ==> r@.len() == data@.len() - period,
        forall|j: int| 0 <= j < r@.len() ==> r@[j] == rsi_at(data@, period as int, j),
        forall|j: int|
            0 <= j < r@.len() && loss_sum(data@, j, j + period) == 0 ==> r@[j] == ratio(100, 1),
{
    let mut rsi_values: Vec<Ratio> = Vec::new();
    if data.len() <= period {
        return rsi_values;
    }
    let n = data.len();
    let mut gains: Vec<u64> = Vec::new();
    let mut losses: Vec<u64> = Vec::new();
    let mut i: usize = 1;
    while i < n
        invariant
            n == data@.len(),
            1 <= i <= n,
            gains@.len() == i - 1,
            losses@.len() == i - 1,
            forall|k: int| 0 <= k < i - 1 ==> gains@[k] == gain_at(data@, k),
            forall|k: int| 0 <= k < i - 1 ==> losses@[k] == loss_at(data@, k),
        decreases n - i,
    {
        let now = data[i].close;
        let before = data[i - 1].close;
        if now > before {
            gains.push(now - before);
            losses.push(0);
        } else {
            gains.push(0);
            losses.push(before - now);
        }
        i = i + 1;
    }
    let mut j: usize = 0;
    while j + period <= gains.len()
        invariant
            n == data@.len(),
            period >= 1,
            closes_in_range(data@),
            gains@.len() == n - 1,
            losses@.len() == n - 1,
            forall|k: int| 0 <= k < n - 1 ==> gains@[k] == gain_at(data@, k),
            forall|k: int| 0 <= k < n - 1 ==> losses@[k] == loss_at(data@, k),
            j <= n - period,
            rsi_values@.len() == j,
            forall|m: int| 0 <= m < j ==> rsi_values@[m] == rsi_at(data@, period as int, m),
        decreases n - j,
    {
        let g = window_move_sum(&gains, j, j + period, Ghost(data@), Ghost(true));
        let l = window_move_sum(&losses, j, j + period, Ghost(data@), Ghost(false));
        proof {
            lemma_move_sums_bound(data@, j as int, j + period);
            assert(period * MAX_PRICE <= 0x1_0000_0000_0000_0000 * MAX_PRICE) by (nonlinear_arith)
                requires period <= 0x1_0000_0000_0000_0000int;
        }
        if l == 0 {
            rsi_values.push(Ratio { num: 100, den: 1 });
        } else {
            rsi_values.push(Ratio { num: 100 * g, den: g + l });
        }
        j = j + 1;
    }
    rsi_values
}

} // verus!
