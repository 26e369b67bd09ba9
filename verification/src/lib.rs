//! Time-bucketed history of pool depths, swaps, earnings and rune-pool units.
//!
//! - [`helpers`] resolves what a query carries: paging, the date range, the
//!   width of a bucket, and the window of an ingestion cycle.
//! - [`models`] holds the interval records of the four series, their named
//!   fields, and filters over those fields.
//! - [`routes`] turns a request into the plan of its answer, or refuses it.
//! - [`services`] answers a query over the records of a series (filter,
//!   order, bucket, page, summarise) and steers the backfill of a series.
//! - [`errors`] names what can go wrong.
//!
//! Nothing here reads a socket or a store: records come in as values, and
//! what is to be fetched, inserted or awaited goes out as values.

pub mod errors;
pub mod helpers;
pub mod models;
pub mod routes;
pub mod services;
pub mod text;
