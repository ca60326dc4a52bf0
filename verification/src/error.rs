//! The error taxonomy of a measurement run. Every stage failure is fatal to
//! the remainder of the pipeline; no stage is retried.

use vstd::prelude::*;

verus! {

/// The four ways a measurement run can fail, one per pipeline stage.
#[derive(Clone, Copy, Debug, PartialEq, Eq, Structural)]
pub enum SpeedTestError {
    /// The server directory was unreachable or returned malformed data.
    FetchError,
    /// Every candidate server was unreachable or timed out during probing.
    NoReachableServerError,
    /// A throughput test exhausted all of its streams without transferring.
    TransferError,
    /// The time-series store rejected or was unreachable during the write.
    WriteError,
}

impl SpeedTestError {
    /// A short diagnostic naming the stage that failed.
    pub fn describe(&self) -> (r: &'static str)
        ensures
            self is FetchError ==> r@ == "server directory fetch failed"@,
            self is NoReachableServerError ==> r@ == "no candidate server was reachable"@,
            self is TransferError ==> r@ == "throughput test failed on every stream"@,
            self is WriteError ==> r@ == "time-series store write failed"@,
    {
        match self {
            SpeedTestError::FetchError => "server directory fetch failed",
            SpeedTestError::NoReachableServerError => "no candidate server was reachable",
            SpeedTestError::TransferError => "throughput test failed on every stream",
            SpeedTestError::WriteError => "time-series store write failed",
        }
    }
}

} // verus!
