//! The interval records of each series, and what can be asked of their fields.

pub mod depth_history_model;
pub mod earning_history_model;
pub mod filter;
pub mod interval;
pub mod rptmuh_model;
pub mod series;
pub mod swaps_history;
