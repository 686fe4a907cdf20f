//! Drains log envelopes from list queues into document collections: the
//! decisions of the flush pipeline, the dead-letter reprocessor and the
//! backlog tuning policy, with the I/O left to the caller.
pub mod tuning;
pub mod codec;
pub mod queue;
pub mod retry;
pub mod flush;
pub mod dead_letter;
pub mod reprocessor;
pub mod config;
pub mod metrics;
pub mod orchestrator;
