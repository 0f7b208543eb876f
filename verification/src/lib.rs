//! Verified core of an HTTP round-trip latency benchmark.
//!
//! A batch of measurement tasks is run against an echo server, each task
//! timing one structured-data (JSON) exchange and then one markup (XML)
//! exchange.  This crate holds the verified logic: the sample and batch data
//! model, the admission-capped batch scheduler, the per-task sequencing state
//! machine, the aggregator, the result-file encoding, and the echo server's
//! body-consumption decision.  The asynchronous transport around it performs
//! the actual I/O and feeds plain values in.

pub mod aggregate;
pub mod config;
pub mod decimal;
pub mod discard;
pub mod report;
pub mod sample;
pub mod scheduler;
pub mod timing;

pub use sample::Sample;
pub use sample::TaskResult;
pub use sample::BatchOutcome;
