//! The run's orchestration: latency probe, then download, then upload, then
//! one store write, in strict sequence.
//!
//! The network work of each stage happens outside the engine. The engine is
//! the state machine: from the current stage and the stage's outcome it
//! decides the next stage and the next action, and it maps each stage's
//! failure to the run's error. No stage begins before the previous one
//! resolved, a failed stage aborts the remainder of the run, and the
//! completed metric point is written exactly once — a failed write is final,
//! never retried.

use vstd::prelude::*;

use crate::error::SpeedTestError;
use crate::metrics::MetricPoint;
use crate::server::any_reachable;
use crate::server::is_best_probe;
use crate::server::probe_select;
use crate::server::ProbeOutcome;
use crate::server::SelectedServer;
use crate::server::ServerCandidate;
use crate::throughput::ThroughputResult;

verus! {

/// The stage a run is in, together with everything the run has produced so
/// far. `Done` and `Failed` are terminal: no event is accepted there.
#[derive(Debug)]
pub enum RunState {
    /// Waiting for the server directory's candidate list.
    AwaitServers,
    /// Waiting for one probe outcome per candidate, in candidate order.
    AwaitProbes {
        /// How many candidates the directory returned.
        candidate_count: usize,
    },
    /// Waiting for the download test against the selected server.
    AwaitDownload {
        /// The winning candidate and its measured latency.
        selected: SelectedServer,
    },
    /// Waiting for the upload test against the selected server.
    AwaitUpload {
        /// The winning candidate and its measured latency.
        selected: SelectedServer,
        /// The finished download measurement.
        download: ThroughputResult,
    },
    /// Waiting for the store's answer to the single write of the point.
    AwaitWrite {
        /// The completed metric point to write.
        point: MetricPoint,
    },
    /// The run completed and its point was written.
    Done,
    /// The run aborted; the error names the stage that failed.
    Failed {
        /// Why the run aborted.
        error: SpeedTestError,
    },
}

/// What the outside work reports back to the engine: each stage's outcome.
#[derive(Debug)]
pub enum RunEvent {
    /// The server directory answered with the candidate list.
    ServersFetched {
        /// The candidates, in the directory's order.
        candidates: Vec<ServerCandidate>,
    },
    /// The server directory was unreachable or returned malformed data.
    FetchFailed,
    /// Every candidate was probed; one outcome per candidate, in candidate
    /// order.
    ProbesCompleted {
        /// The probes' outcomes.
        outcomes: Vec<ProbeOutcome>,
    },
    /// The download test finished with a measurement.
    DownloadMeasured {
        /// The download measurement.
        result: ThroughputResult,
    },
    /// The download test exhausted all of its streams.
    DownloadFailed,
    /// The upload test finished with a measurement.
    UploadMeasured {
        /// The upload measurement.
        result: ThroughputResult,
    },
    /// The upload test exhausted all of its streams.
    UploadFailed,
    /// The store accepted the point.
    WriteAcknowledged,
    /// The store rejected the point or was unreachable.
    WriteFailed,
}

/// What the driver of a run must do next, given the run's state.
#[derive(Clone, Copy, Debug, PartialEq, Eq, Structural)]
pub enum RunAction {
    /// Fetch the candidate list from the server directory.
    FetchServers,
    /// Probe every candidate's latency.
    ProbeCandidates,
    /// Run the download test against the selected server.
    RunDownload,
    /// Run the upload test against the selected server.
    RunUpload,
    /// Write the completed point to the store, once.
    WritePoint,
    /// The run succeeded; nothing is left to do.
    ReportSuccess,
    /// The run failed; report the error and stop with a non-zero outcome.
    ReportFailure,
}

impl RunState {
    /// Invariant: every measurement a state carries is a genuine one.
    pub open spec fn inv(self) -> bool {
        match self {
            RunState::AwaitUpload { selected: _, download } => download.wf(),
            RunState::AwaitWrite { point } => point.wf(),
            _ => true,
        }
    }

    /// Which events a state accepts: exactly its own stage's outcome, with
    /// one probe outcome per candidate and only well-formed measurements.
    /// `Done` and `Failed` accept nothing.
    pub open spec fn accepts(self, event: RunEvent) -> bool {
        match (self, event) {
            (RunState::AwaitServers, RunEvent::ServersFetched { .. }) => true,
            (RunState::AwaitServers, RunEvent::FetchFailed) => true,
            (
                RunState::AwaitProbes { candidate_count },
                RunEvent::ProbesCompleted { outcomes },
            ) => outcomes@.len() == candidate_count,
            (RunState::AwaitDownload { .. }, RunEvent::DownloadMeasured { result }) => result.wf(),
            (RunState::AwaitDownload { .. }, RunEvent::DownloadFailed) => true,
            (RunState::AwaitUpload { .. }, RunEvent::UploadMeasured { result }) => result.wf(),
            (RunState::AwaitUpload { .. }, RunEvent::UploadFailed) => true,
            (RunState::AwaitWrite { .. }, RunEvent::WriteAcknowledged) => true,
            (RunState::AwaitWrite { .. }, RunEvent::WriteFailed) => true,
            _ => false,
        }
    }

    /// The action the driver owes in each state.
    pub open spec fn action_spec(self) -> RunAction {
        match self {
            RunState::AwaitServers => RunAction::FetchServers,
            RunState::AwaitProbes { .. } => RunAction::ProbeCandidates,
            RunState::AwaitDownload { .. } => RunAction::RunDownload,
            RunState::AwaitUpload { .. } => RunAction::RunUpload,
            RunState::AwaitWrite { .. } => RunAction::WritePoint,
            RunState::Done => RunAction::ReportSuccess,
            RunState::Failed { .. } => RunAction::ReportFailure,
        }
    }

    /// What the driver of the run must do next.
    pub fn action(&self) -> (a: RunAction)
        ensures
            a == self.action_spec(),
    {
        match self {
            RunState::AwaitServers => RunAction::FetchServers,
            RunState::AwaitProbes { .. } => RunAction::ProbeCandidates,
            RunState::AwaitDownload { .. } => RunAction::RunDownload,
            RunState::AwaitUpload { .. } => RunAction::RunUpload,
            RunState::AwaitWrite { .. } => RunAction::WritePoint,
            RunState::Done => RunAction::ReportSuccess,
            RunState::Failed { .. } => RunAction::ReportFailure,
        }
    }

    /// Advances the run by one stage outcome.
    ///
    /// A fetched candidate list moves the run to probing; completed probes
    /// select the reachable candidate of minimal latency (earliest in
    /// candidate order among equals) or abort the run when every probe
    /// failed; each finished test carries its measurement forward; the
    /// completed point, stamped with the wall clock, awaits its single
    /// write; and every stage failure aborts the run with that stage's
    /// error.
    pub fn step(self, event: RunEvent) -> (r: RunState)
        requires
            self.inv(),
            self.accepts(event),
        ensures
            r.inv(),
            self is AwaitServers ==> (event matches RunEvent::ServersFetched { candidates } ==> (
            r matches RunState::AwaitProbes { candidate_count } && candidate_count
                == candidates@.len())),
            (self is AwaitServers && event is FetchFailed) ==> r == (RunState::Failed {
                error: SpeedTestError::FetchError,
            }),
            self is AwaitProbes ==> (event matches RunEvent::ProbesCompleted { outcomes } ==> (
            if any_reachable(outcomes@) {
                r matches RunState::AwaitDownload { selected } && is_best_probe(
                    outcomes@,
                    selected,
                )
            } else {
                r == (RunState::Failed { error: SpeedTestError::NoReachableServerError })
            })),
            self matches RunState::AwaitDownload { selected } ==> (event matches
                RunEvent::DownloadMeasured { result } ==> r == (RunState::AwaitUpload {
                selected,
                download: result,
            })),
            (self is AwaitDownload && event is DownloadFailed) ==> r == (RunState::Failed {
                error: SpeedTestError::TransferError,
            }),
            self matches RunState::AwaitUpload { selected, download } ==> (event matches
                RunEvent::UploadMeasured { result } ==> (r matches RunState::AwaitWrite { point }
                && point.latency_ms == selected.latency_ms && point.download == download
                && point.upload == result)),
            (self is AwaitUpload && event is UploadFailed) ==> r == (RunState::Failed {
                error: SpeedTestError::TransferError,
            }),
            (self is AwaitWrite && event is WriteAcknowledged) ==> r is Done,
            (self is AwaitWrite && event is WriteFailed) ==> r == (RunState::Failed {
                error: SpeedTestError::WriteError,
            }),
    {
        match (self, event) {
            (RunState::AwaitServers, RunEvent::ServersFetched { candidates }) => {
                RunState::AwaitProbes { candidate_count: candidates.len() }
            },
            (RunState::AwaitServers, RunEvent::FetchFailed) => {
                RunState::Failed { error: SpeedTestError::FetchError }
            },
            (RunState::AwaitProbes { candidate_count: _ }, RunEvent::ProbesCompleted { outcomes }) => {
                match probe_select(&outcomes) {
                    Ok(selected) => RunState::AwaitDownload { selected },
                    Err(error) => RunState::Failed { error },
                }
            },
            (RunState::AwaitDownload { selected }, RunEvent::DownloadMeasured { result }) => {
                RunState::AwaitUpload { selected, download: result }
            },
            (RunState::AwaitDownload { .. }, RunEvent::DownloadFailed) => {
                RunState::Failed { error: SpeedTestError::TransferError }
            },
            (RunState::AwaitUpload { selected, download }, RunEvent::UploadMeasured { result }) => {
                RunState::AwaitWrite { point: MetricPoint::stamped(&selected, download, result) }
            },
            (RunState::AwaitUpload { .. }, RunEvent::UploadFailed) => {
                RunState::Failed { error: SpeedTestError::TransferError }
            },
            (RunState::AwaitWrite { .. }, RunEvent::WriteAcknowledged) => RunState::Done,
            (RunState::AwaitWrite { .. }, RunEvent::WriteFailed) => {
                RunState::Failed { error: SpeedTestError::WriteError }
            },
            (s, _) => s,
        }
    }
}

/// One write attempt resolves the run: the write stage accepts only the
/// store's acknowledgement or its refusal, each of which leaves the write
/// stage for good, so the point is written at most once.
pub proof fn lemma_write_resolves(state: RunState, event: RunEvent)
    requires
        state is AwaitWrite,
        state.accepts(event),
    ensures
        event is WriteAcknowledged || event is WriteFailed,
{
}

/// A finished run — successful or failed — accepts no further event: no
/// stage re-executes, no failed write is retried.
pub proof fn lemma_terminal_states(state: RunState, event: RunEvent)
    requires
        state is Done || state is Failed,
    ensures
        !state.accepts(event),
{
}

} // verus!
