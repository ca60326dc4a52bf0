//! The metric point a successful run emits.
//!
//! A point is assembled only from a complete run: the selected server's
//! latency and both finished throughput results, stamped with the wall-clock
//! time at which the measurements completed. It is written once to the
//! external time-series store; the wire encoding of that write is the
//! store's concern, outside the engine.

use vstd::prelude::*;

use crate::server::SelectedServer;
use crate::throughput::ThroughputResult;

verus! {

/// The single record a run produces: when it ran, the measured round-trip
/// latency, and the measured throughput in each direction. The store's
/// floating-point fields (latency in seconds, rates in bits per second) are
/// derived from these integer counts at the write boundary.
#[derive(Clone, Copy, Debug, PartialEq, Eq, Structural)]
pub struct MetricPoint {
    /// Wall-clock timestamp in milliseconds since the Unix epoch.
    pub timestamp_ms: i64,
    /// The selected server's measured round-trip latency in milliseconds.
    pub latency_ms: u64,
    /// The finished download test's result.
    pub download: ThroughputResult,
    /// The finished upload test's result.
    pub upload: ThroughputResult,
}

/// Relies on chrono::Utc::now for the current wall-clock instant, read out
/// as milliseconds since the Unix epoch through
/// chrono::DateTime::timestamp_millis. Nothing is promised of the value:
/// the clock is the machine's.
#[verifier::external_body]
fn current_unix_millis() -> i64 {
    chrono::Utc::now().timestamp_millis()
}

impl MetricPoint {
    /// Both throughput results must be genuine measurements.
    pub open spec fn wf(self) -> bool {
        &&& self.download.wf()
        &&& self.upload.wf()
    }

    /// Assembles a point from the three completed measurements and an
    /// explicit timestamp. There is no way to build a point from a partial
    /// run: both throughput results must already exist.
    pub fn new(
        selected: &SelectedServer,
        download: ThroughputResult,
        upload: ThroughputResult,
        timestamp_ms: i64,
    ) -> (p: Self)
        requires
            download.wf(),
            upload.wf(),
        ensures
            p.timestamp_ms == timestamp_ms,
            p.latency_ms == selected.latency_ms,
            p.download == download,
            p.upload == upload,
            p.wf(),
    {
        MetricPoint {
            timestamp_ms,
            latency_ms: selected.latency_ms,
            download,
            upload,
        }
    }

    /// Assembles a point from the three completed measurements, stamped
    /// with the wall clock's current reading.
    pub fn stamped(
        selected: &SelectedServer,
        download: ThroughputResult,
        upload: ThroughputResult,
    ) -> (p: Self)
        requires
            download.wf(),
            upload.wf(),
        ensures
            p.latency_ms == selected.latency_ms,
            p.download == download,
            p.upload == upload,
            p.wf(),
    {
        let timestamp_ms = current_unix_millis();
        MetricPoint::new(selected, download, upload, timestamp_ms)
    }
}

} // verus!
