//! Parsing and normalising what a query carries.

pub mod cron;
pub mod query_parser;
pub mod time_formatter;
pub mod time_intervals;
