//! Records of the price series and of the summaries computed from it.
use crate::calendar::Timestamp;
use vstd::prelude::*;

verus! {

/// Prices are held in ticks: ten-thousandths of the currency unit.
pub const PRICE_SCALE: u64 = 10000;

/// Largest close price (in ticks) that the windowed indicators accept, so that
/// their sums over any window fit in 128 bits.
pub const MAX_PRICE: u64 = 1000000000000000;

/// One bar of the price series.
#[derive(Clone, Copy, Debug, PartialEq, Eq, Structural)]
pub struct StockData {
    pub date: Timestamp,
    pub open: u64,
    pub high: u64,
    pub low: u64,
    pub close: u64,
    pub volume: u64,
}

/// An exact quotient `num / den`. A zero `den` stands for a non-finite value:
/// positive or negative infinity by the sign of `num`, or not-a-number for `0 / 0`.
#[derive(Clone, Copy, Debug, PartialEq, Eq, Structural)]
pub struct Ratio {
    pub num: i128,
    pub den: i128,
}

pub open spec fn ratio(num: int, den: int) -> Ratio {
    Ratio { num: num as i128, den: den as i128 }
}

/// `100 * (to - from) / from`: the change from `from` to `to` in percent.
pub open spec fn change_pct(from: int, to: int) -> Ratio {
    ratio((to - from) * 100, from)
}

#[derive(Clone, Copy, Debug, PartialEq, Eq, Structural)]
pub struct DailyAnalysis {
    pub date: Timestamp,
    pub current_price: u64,
    pub previous_price: u64,
    pub price_change_pct: Ratio,
    pub relative_to_high: Ratio,
    pub relative_to_low: Ratio,
    pub historical_high: u64,
    pub historical_low: u64,
    pub volume: u64,
}

#[derive(Clone, Copy, Debug, PartialEq, Eq, Structural)]
pub struct WeeklyAnalysis {
    pub start_date: Timestamp,
    pub end_date: Timestamp,
    pub start_price: u64,
    pub end_price: u64,
    pub weekly_change_pct: Ratio,
    pub highest_price: u64,
    pub highest_date: Timestamp,
    pub lowest_price: u64,
    pub lowest_date: Timestamp,
    pub average_volume: Ratio,
    pub total_volume: u64,
}

#[derive(Clone, Copy, Debug, PartialEq, Eq, Structural)]
pub struct MonthlyAnalysis {
    pub year: i32,
    pub month: u32,
    pub start_date: Timestamp,
    pub end_date: Timestamp,
    pub start_price: u64,
    pub end_price: u64,
    pub monthly_change_pct: Ratio,
    pub highest_price: u64,
    pub highest_date: Timestamp,
    pub lowest_price: u64,
    pub lowest_date: Timestamp,
    pub average_volume: Ratio,
    pub total_volume: u64,
}

/// Settings of the mail server that reports are sent through.
#[derive(Debug)]
pub struct EmailConfig {
    pub smtp_server: String,
    pub smtp_port: u16,
    pub username: String,
    pub password: String,
    pub from_email: String,
    pub to_emails: Vec<String>,
}

/// Settings of the text-generation service.
#[derive(Debug)]
pub struct GeminiConfig {
    pub api_key: String,
    pub model: String,
}

impl Default for EmailConfig {
    fn default() -> (r: EmailConfig)
        ensures
            r.smtp_server@ == "smtp.gmail.com"@,
            r.smtp_port == 587,
            r.username@.len() == 0,
            r.password@.len() == 0,
            r.from_email@.len() == 0,
            r.to_emails@.len() == 0,
    {
        EmailConfig {
            smtp_server: "smtp.gmail.com".to_owned(),
            smtp_port: 587,
            username: String::new(),
            password: String::new(),
            from_email: String::new(),
            to_emails: Vec::new(),
        }
    }
}

impl Default for GeminiConfig {
    fn default() -> (r: GeminiConfig)
        ensures
            r.api_key@.len() == 0,
            r.model@ == "gemini-pro"@,
    {
        GeminiConfig { api_key: String::new(), model: "gemini-pro".to_owned() }
    }
}

} // verus!
