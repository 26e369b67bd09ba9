//! Answering queries over the interval records of each series, and planning
//! the ingestion of new ones.

pub mod backfill;
pub mod bucketing;
pub mod depths_service;
pub mod earnings_service;
pub mod paging;
pub mod query;
pub mod rpmuh_service;
pub mod sorting;
pub mod store;
pub mod swaps_service;
