//! A network speed measurement engine: latency-based server selection,
//! timed multi-stream throughput accounting, and assembly of the resulting
//! metric point for an external time-series store.
//!
//! The engine holds the measurement's logic; the network exchanges it
//! decides about — directory fetch, latency probes, chunk transfers, the
//! store write — are performed by a driver outside it, which reports every
//! outcome back as an event.

pub mod config;
pub mod error;
pub mod metrics;
pub mod run;
pub mod server;
pub mod throughput;
