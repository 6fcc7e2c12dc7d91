//! Coordinator for a distributed batch-processing job.
//!
//! A pool of remote workers computes scored keyboard layouts in numbered
//! batches. This crate holds the coordinator's verified core: the worker
//! registry, the shared job state, the per-worker poll-loop decision rule,
//! and the aggregation of returned layouts into a single best result. The
//! HTTP transport that carries the protocol lives outside the library and
//! hands it plain values.

pub mod aggregate;
pub mod data;
pub mod laws;
pub mod poll;
pub mod state;
