//! A course catalog client core: the typed model of a university curriculum
//! service's paged search results, a JSON codec for its wire shape, and the
//! serial and batched-parallel aggregators that drain the pages.
//!
//! Everything here is pure logic over plain values; fetching, configuration
//! and file output live with the caller, which drives the aggregator state
//! machines one page or one batch at a time.

pub mod json;
pub mod model;
pub mod api_service;
pub mod laws;
pub mod codec;
