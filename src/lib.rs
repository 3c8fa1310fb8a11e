//! Scheduling and price-series analysis for periodic market reports.
pub mod analyzer;
pub mod calendar;
pub mod models;
pub mod report;
pub mod scheduler;
