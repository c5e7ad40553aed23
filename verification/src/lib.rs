//! Batched asynchronous publish pipeline for a Kafka sink: an inbound batch
//! collector, a topic resolver, a delivery dispatcher with per-record
//! accounting, and a two-tier idle backoff controller, together with the
//! process bootstrap context.
//!
//! The pipeline's decisions are verified here; the surrounding I/O (the
//! upstream channel, the broker client, the async runtime) is driven by an
//! unverified shell that feeds events into these functions.

pub mod collector;
pub mod config;
pub mod context;
pub mod counters;
pub mod dispatch;
pub mod functions;
pub mod idle;
pub mod numeric;
pub mod outcome;
pub mod pipeline;
pub mod record;
pub mod resolver;
