use chrono::TimeZone;
use investment_notice::analyzer::{
    analyze_daily_data, analyze_monthly_data, analyze_weekly_data, calculate_moving_average,
    calculate_rsi, AnalysisError,
};
use investment_notice::calendar::Timestamp;
use investment_notice::models::{
    EmailConfig, GeminiConfig, Ratio, StockData, PRICE_SCALE,
};
use investment_notice::report::{format_daily_report, format_monthly_report, format_weekly_report};

fn day(d: u32) -> Timestamp {
    Timestamp { secs: chrono::Utc.with_ymd_and_hms(2024, 6, d, 0, 0, 0).unwrap().timestamp() }
}

fn ticks(price: u64) -> u64 {
    price * PRICE_SCALE
}

fn bar(d: u32, high: u64, low: u64, close: u64, volume: u64) -> StockData {
    StockData {
        date: day(d),
        open: ticks(close),
        high: ticks(high),
        low: ticks(low),
        close: ticks(close),
        volume,
    }
}

fn closes(cs: &[u64]) -> Vec<StockData> {
    cs.iter().enumerate().map(|(i, c)| bar(1 + i as u32, *c, *c, *c, 1000)).collect()
}

fn value(r: Ratio) -> f64 {
    r.num as f64 / r.den as f64
}

#[test]
fn daily_change_of_ten_percent() {
    let a = analyze_daily_data(&closes(&[100, 110])).unwrap();
    assert_eq!(value(a.price_change_pct), 10.0);
    assert_eq!(a.current_price, ticks(110));
    assert_eq!(a.previous_price, ticks(100));
}

#[test]
fn daily_single_point_compares_with_itself() {
    let a = analyze_daily_data(&[bar(3, 12, 8, 10, 77)]).unwrap();
    assert_eq!(a.previous_price, a.current_price);
    assert_eq!(a.price_change_pct.num, 0);
    assert_eq!(a.volume, 77);
    assert_eq!(a.date, day(3));
}

#[test]
fn daily_extremes_and_position() {
    let data = vec![bar(3, 12, 9, 10, 1), bar(4, 15, 11, 14, 2), bar(5, 13, 5, 11, 3)];
    let a = analyze_daily_data(&data).unwrap();
    assert_eq!(a.historical_high, ticks(15));
    assert_eq!(a.historical_low, ticks(5));
    for p in &data {
        assert!(a.historical_high >= p.high);
        assert!(a.historical_low <= p.low);
    }
    assert_eq!(value(a.relative_to_high), 60.0);
    assert_eq!(value(a.relative_to_low), 40.0);
    assert!((value(a.relative_to_high) + value(a.relative_to_low) - 100.0).abs() < 1e-9);
}

#[test]
fn daily_flat_range_is_not_finite() {
    let a = analyze_daily_data(&closes(&[10, 10])).unwrap();
    assert!(value(a.relative_to_high).is_nan());
    let b = analyze_daily_data(&[bar(3, 10, 10, 10, 1), bar(4, 10, 10, 10, 1)]).unwrap();
    assert_eq!(b.relative_to_low.den, 0);
}

#[test]
fn analyses_reject_empty_input() {
    assert_eq!(analyze_daily_data(&[]), Err(AnalysisError::EmptyInput));
    assert_eq!(analyze_weekly_data(&[]), Err(AnalysisError::EmptyInput));
    assert_eq!(analyze_monthly_data(&[]), Err(AnalysisError::EmptyInput));
}

#[test]
fn weekly_extremes_first_occurrence() {
    let data = vec![
        bar(3, 12, 9, 10, 100),
        bar(4, 15, 7, 14, 200),
        bar(5, 15, 7, 11, 300),
        bar(6, 13, 8, 12, 400),
    ];
    let w = analyze_weekly_data(&data).unwrap();
    assert_eq!(w.start_date, day(3));
    assert_eq!(w.end_date, day(6));
    assert_eq!(w.start_price, ticks(10));
    assert_eq!(w.end_price, ticks(12));
    assert_eq!(value(w.weekly_change_pct), 20.0);
    assert_eq!(w.highest_price, ticks(15));
    assert_eq!(w.highest_date, day(4));
    assert_eq!(w.lowest_price, ticks(7));
    assert_eq!(w.lowest_date, day(4));
    assert_eq!(w.total_volume, 1000);
    assert_eq!(value(w.average_volume), 250.0);
}

#[test]
fn single_point_period() {
    let data = vec![bar(3, 12, 8, 10, 500)];
    let w = analyze_weekly_data(&data).unwrap();
    assert_eq!(w.start_date, w.end_date);
    assert_eq!(w.weekly_change_pct.num, 0);
    assert_eq!(w.highest_price, ticks(12));
    assert_eq!(w.lowest_price, ticks(8));
    assert_eq!(value(w.average_volume), 500.0);
    let m = analyze_monthly_data(&data).unwrap();
    assert_eq!(m.start_date, m.end_date);
    assert_eq!(m.monthly_change_pct.num, 0);
    assert_eq!(m.highest_price, ticks(12));
    assert_eq!(m.lowest_price, ticks(8));
    assert_eq!(value(m.average_volume), 500.0);
}

#[test]
fn monthly_tags_year_and_month_of_last_point() {
    let mut data = closes(&[10, 11]);
    data.push(StockData {
        date: Timestamp { secs: chrono::Utc.with_ymd_and_hms(2024, 7, 2, 9, 0, 0).unwrap().timestamp() },
        ..bar(1, 12, 12, 12, 1000)
    });
    let m = analyze_monthly_data(&data).unwrap();
    assert_eq!((m.year, m.month), (2024, 7));
    assert_eq!(value(m.monthly_change_pct), 20.0);
    assert_eq!(m.total_volume, 3000);
}

#[test]
fn moving_average_keeps_length_and_sentinels() {
    let ma = calculate_moving_average(&closes(&[1, 2, 3, 4, 5]), 3);
    assert_eq!(ma.len(), 5);
    assert_eq!(ma[0].num, 0);
    assert_eq!(ma[1].num, 0);
    assert_eq!(value(ma[2]), 2.0 * PRICE_SCALE as f64);
    assert_eq!(value(ma[3]), 3.0 * PRICE_SCALE as f64);
    assert_eq!(value(ma[4]), 4.0 * PRICE_SCALE as f64);
    assert_eq!(calculate_moving_average(&closes(&[1, 2]), 5).iter().filter(|r| r.num == 0).count(), 2);
    assert!(calculate_moving_average(&[], 3).is_empty());
}

#[test]
fn rsi_needs_period_plus_one_points() {
    let data = closes(&[1, 2, 3, 4, 5, 6, 7, 8, 9, 10]);
    assert!(calculate_rsi(&data, 14).is_empty());
    assert!(calculate_rsi(&data, 10).is_empty());
    assert_eq!(calculate_rsi(&data, 9).len(), 1);
}

#[test]
fn rsi_without_losses_is_one_hundred() {
    let r = calculate_rsi(&closes(&[1, 2, 3, 4, 5, 6]), 3);
    assert_eq!(r.len(), 3);
    for v in r {
        assert_eq!(value(v), 100.0);
    }
}

#[test]
fn rsi_mixed_window() {
    // Steps: +2, -1, +1, -2.
    let r = calculate_rsi(&closes(&[10, 12, 11, 12, 10]), 2);
    assert_eq!(r.len(), 3);
    let expected = [100.0 * 2.0 / 3.0, 50.0, 100.0 / 3.0];
    for (v, e) in r.iter().zip(expected) {
        let formula = 100.0 - 100.0 / (1.0 + e / (100.0 - e));
        assert!((value(*v) - e).abs() < 1e-9);
        assert!((value(*v) - formula).abs() < 1e-9);
    }
}

#[test]
fn daily_report_text() {
    let a = analyze_daily_data(&closes(&[100, 110])).unwrap();
    let text = format_daily_report(&a, "Hold.");
    assert_eq!(
        text,
        "📊 CSI 300 ETF Daily Analysis Report\n\n📅 Date: 2024-06-02\n\n💰 Current Price: 110.00 CNY\n📈 Price Change: 10.00%\n📊 Relative to High: 100.00%\n📉 Relative to Low: 0.00%\n\n🤖 AI Analysis:\nHold.\n"
    );
}

#[test]
fn report_numbers_round_to_two_decimals() {
    let data = vec![
        StockData { date: day(3), open: 0, high: 30000, low: 30000, close: 30000, volume: 1 },
        StockData { date: day(4), open: 0, high: 12345, low: 12345, close: 12345, volume: 1 },
    ];
    let a = analyze_daily_data(&data).unwrap();
    let text = format_daily_report(&a, "");
    assert!(text.contains("Current Price: 1.23 CNY"));
    assert!(text.contains("Price Change: -58.85%"));
    let flat = analyze_daily_data(&closes(&[10, 10])).unwrap();
    assert!(format_daily_report(&flat, "").contains("Relative to High: NaN%"));
}

#[test]
fn weekly_and_monthly_report_text() {
    let data = vec![bar(3, 12, 9, 10, 100), bar(4, 15, 7, 14, 200)];
    let w = analyze_weekly_data(&data).unwrap();
    assert_eq!(
        format_weekly_report(&w, "Up."),
        "📈 CSI 300 ETF Weekly Analysis Report\n\n📅 Period: 2024-06-03 to 2024-06-04\n\n💰 Start Price: 10.00 CNY\n💰 End Price: 14.00 CNY\n📈 Weekly Change: 40.00%\n📊 Highest: 15.00 CNY (2024-06-04)\n📉 Lowest: 7.00 CNY (2024-06-04)\n\n🤖 AI Analysis:\nUp.\n"
    );
    let m = analyze_monthly_data(&data).unwrap();
    assert_eq!(
        format_monthly_report(&m, "Up."),
        "📊 CSI 300 ETF Monthly Analysis Report\n\n📅 Month: 2024-6\n\n💰 Start Price: 10.00 CNY\n💰 End Price: 14.00 CNY\n📈 Monthly Change: 40.00%\n📊 Highest: 15.00 CNY (2024-06-04)\n📉 Lowest: 7.00 CNY (2024-06-04)\n\n🤖 AI Analysis:\nUp.\n"
    );
}

#[test]
fn default_configs() {
    let e = EmailConfig::default();
    assert_eq!(e.smtp_server, "smtp.gmail.com");
    assert_eq!(e.smtp_port, 587);
    assert!(e.username.is_empty() && e.password.is_empty() && e.from_email.is_empty());
    assert!(e.to_emails.is_empty());
    let g = GeminiConfig::default();
    assert_eq!(g.model, "gemini-pro");
    assert!(g.api_key.is_empty());
}

#[test]
fn report_prices_round_ties_to_even() {
    for (t, text) in [(11250u64, "1.12"), (31250, "3.12"), (3750, "0.38"), (11251, "1.13"), (11249, "1.12")] {
        let a = analyze_daily_data(&[StockData { date: day(3), open: t, high: t, low: t, close: t, volume: 1 }]).unwrap();
        let report = format_daily_report(&a, "");
        assert!(report.contains(&format!("Current Price: {} CNY", text)), "{}", report);
        assert_eq!(format!("{:.2}", t as f64 / PRICE_SCALE as f64), text);
    }
}

#[test]
fn period_zero_on_empty_series() {
    assert!(calculate_rsi(&[], 0).is_empty());
    assert!(calculate_moving_average(&[], 0).is_empty());
}
