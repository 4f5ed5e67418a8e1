//! Core logic of a supermarket price tracker.
//!
//! A crawl walks a paginated catalog API one category at a time: a task
//! queue is seeded with one first-page job per category, workers drain it,
//! and each first page expands the queue with the category's remaining
//! pages. The pages' products are merged into one set keyed by sku,
//! previously persisted skus that no longer appear are reported as
//! off-sale, and the merged set is reconciled against persisted product
//! mappings so that a price observation can be appended for every product
//! the store still carries.
//!
//! Everything here is pure computation over plain values: the HTTP
//! requests, the database queries and the worker scheduling live in the
//! surrounding application, which feeds their results into these
//! functions.

use vstd::prelude::*;

pub mod category;
pub mod config;
pub mod dedup;
pub mod error;
pub mod fetch;
pub mod off_sale;
pub mod position;
pub mod product;
pub mod queue;
pub mod reconcile;
pub mod request;
pub mod shell;
pub mod supermarket;

verus! {

/// The path the merged product set is cached at after a crawl.
pub const CACHE_PATH: &'static str = "cache.json";

/// The number of workers draining the task queue at once.
pub const CONCURRENT_REQUESTS: i64 = 2;

/// The number of milliseconds a worker pauses after each page fetch.
pub const PAGE_ITERATION_INTERVAL_MS: u64 = 500;

} // verus!
