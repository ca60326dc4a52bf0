//! Test parameters. The configuration is supplied from outside the engine and
//! treated as a fixed input for the whole run.

use vstd::prelude::*;

verus! {

/// Parameters of one throughput test direction: how long the test may keep
/// issuing chunk transfers, and over how many concurrent streams.
#[derive(Clone, Copy, Debug, PartialEq, Eq, Structural)]
pub struct TestConfig {
    /// Maximum duration of the test window, in milliseconds. New chunk
    /// transfers are issued only while the elapsed time is within this window.
    pub window_ms: u64,
    /// Number of concurrent transfer streams.
    pub streams: u64,
}

impl Default for TestConfig {
    /// A ten second window over four concurrent streams.
    fn default() -> (c: Self)
        ensures
            c.window_ms == 10000,
            c.streams == 4,
    {
        TestConfig { window_ms: 10000, streams: 4 }
    }
}

} // verus!
