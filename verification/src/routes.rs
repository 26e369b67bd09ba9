//! What a request carries, what it is resolved into, and what a response holds.

pub mod depths_history;
pub mod earnings_history;
pub mod plan;
pub mod rpmuh_history;
pub mod swaps_history;
pub mod types;
