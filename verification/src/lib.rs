//! Device-telemetry ingestion gateway core: admission, bounded queueing, and
//! fanout dispatch, together with the readiness gating and shutdown sequencing
//! that coordinate them.

pub mod config;
pub mod dispatcher;
pub mod event;
pub mod fanout;
pub mod ingest;
pub mod metrics;
pub mod probes;
pub mod queue;
pub mod readiness;
pub mod shutdown;
pub mod sink;
