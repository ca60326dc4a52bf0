use speedmeter::error::SpeedTestError;
use speedmeter::run::RunAction;
use speedmeter::run::RunEvent;
use speedmeter::run::RunState;
use speedmeter::server::ProbeOutcome;
use speedmeter::server::ServerCandidate;
use speedmeter::throughput::ThroughputResult;

fn candidate(host: &str) -> ServerCandidate {
    ServerCandidate { host: host.to_string(), url: format!("http://{}/speedtest/upload.php", host) }
}

fn reachable(latency_ms: u64) -> ProbeOutcome {
    ProbeOutcome::Reachable { latency_ms }
}

#[test]
fn end_to_end_run_writes_one_point() {
    let mut state = RunState::AwaitServers;
    let mut write_attempts = 0;

    assert_eq!(state.action(), RunAction::FetchServers);
    let candidates = vec![candidate("a.example"), candidate("b.example"), candidate("c.example")];
    state = state.step(RunEvent::ServersFetched { candidates });

    assert_eq!(state.action(), RunAction::ProbeCandidates);
    // A answers after 50 ms; B and C tie at 20 ms: B, earlier in the list, wins.
    let outcomes = vec![reachable(50), reachable(20), reachable(20)];
    state = state.step(RunEvent::ProbesCompleted { outcomes });
    match &state {
        RunState::AwaitDownload { selected } => {
            assert_eq!(selected.index, 1);
            assert_eq!(selected.latency_ms, 20);
        }
        other => panic!("unexpected state {:?}", other),
    }

    assert_eq!(state.action(), RunAction::RunDownload);
    // 10 MB over two streams in 4 s.
    let download = ThroughputResult::new(10_000_000, 4000);
    state = state.step(RunEvent::DownloadMeasured { result: download });

    assert_eq!(state.action(), RunAction::RunUpload);
    // 5 MB in 2 s.
    let upload = ThroughputResult::new(5_000_000, 2000);
    state = state.step(RunEvent::UploadMeasured { result: upload });

    match &state {
        RunState::AwaitWrite { point } => {
            let latency_seconds = point.latency_ms as f64 / 1000.0;
            assert!((latency_seconds - 0.020).abs() < 1e-12);
            let download_bps =
                (point.download.bytes as f64 * 8.0) / (point.download.millis as f64 / 1000.0);
            let upload_bps =
                (point.upload.bytes as f64 * 8.0) / (point.upload.millis as f64 / 1000.0);
            assert!((download_bps - 2.0e7).abs() < 1e-6);
            assert!((upload_bps - 2.0e7).abs() < 1e-6);
            assert_eq!(point.download.kbps(), 20_000);
            assert_eq!(point.upload.kbps(), 20_000);
        }
        other => panic!("unexpected state {:?}", other),
    }

    assert_eq!(state.action(), RunAction::WritePoint);
    write_attempts += 1;
    state = state.step(RunEvent::WriteAcknowledged);

    assert!(matches!(state, RunState::Done));
    assert_eq!(state.action(), RunAction::ReportSuccess);
    assert_eq!(write_attempts, 1);
}

fn run_until_write() -> RunState {
    let mut state = RunState::AwaitServers;
    state = state.step(RunEvent::ServersFetched { candidates: vec![candidate("a.example")] });
    state = state.step(RunEvent::ProbesCompleted { outcomes: vec![reachable(30)] });
    state = state.step(
        RunEvent::DownloadMeasured { result: ThroughputResult::new(10_000_000, 4000) },
    );
    state = state.step(RunEvent::UploadMeasured { result: ThroughputResult::new(5_000_000, 2000) });
    state
}

#[test]
fn write_failure_fails_the_run_with_write_error() {
    let mut state = run_until_write();
    assert_eq!(state.action(), RunAction::WritePoint);
    state = state.step(RunEvent::WriteFailed);
    match &state {
        RunState::Failed { error } => assert_eq!(*error, SpeedTestError::WriteError),
        other => panic!("unexpected state {:?}", other),
    }
    assert_eq!(state.action(), RunAction::ReportFailure);
}

#[test]
fn fetch_failure_fails_the_run() {
    let state = RunState::AwaitServers.step(RunEvent::FetchFailed);
    match &state {
        RunState::Failed { error } => assert_eq!(*error, SpeedTestError::FetchError),
        other => panic!("unexpected state {:?}", other),
    }
    assert_eq!(state.action(), RunAction::ReportFailure);
}

#[test]
fn all_probes_failing_fails_the_run() {
    let mut state = RunState::AwaitServers;
    state = state.step(
        RunEvent::ServersFetched { candidates: vec![candidate("a.example"), candidate("b.example")] },
    );
    state = state.step(
        RunEvent::ProbesCompleted {
            outcomes: vec![ProbeOutcome::Unreachable, ProbeOutcome::Unreachable],
        },
    );
    match &state {
        RunState::Failed { error } => assert_eq!(*error, SpeedTestError::NoReachableServerError),
        other => panic!("unexpected state {:?}", other),
    }
}

#[test]
fn download_failure_fails_the_run() {
    let mut state = RunState::AwaitServers;
    state = state.step(RunEvent::ServersFetched { candidates: vec![candidate("a.example")] });
    state = state.step(RunEvent::ProbesCompleted { outcomes: vec![reachable(30)] });
    state = state.step(RunEvent::DownloadFailed);
    match &state {
        RunState::Failed { error } => assert_eq!(*error, SpeedTestError::TransferError),
        other => panic!("unexpected state {:?}", other),
    }
}

#[test]
fn upload_failure_fails_the_run() {
    let mut state = RunState::AwaitServers;
    state = state.step(RunEvent::ServersFetched { candidates: vec![candidate("a.example")] });
    state = state.step(RunEvent::ProbesCompleted { outcomes: vec![reachable(30)] });
    state = state.step(
        RunEvent::DownloadMeasured { result: ThroughputResult::new(10_000_000, 4000) },
    );
    state = state.step(RunEvent::UploadFailed);
    match &state {
        RunState::Failed { error } => assert_eq!(*error, SpeedTestError::TransferError),
        other => panic!("unexpected state {:?}", other),
    }
}

#[test]
fn each_error_describes_its_stage() {
    assert_eq!(SpeedTestError::FetchError.describe(), "server directory fetch failed");
    assert_eq!(
        SpeedTestError::NoReachableServerError.describe(),
        "no candidate server was reachable"
    );
    assert_eq!(SpeedTestError::TransferError.describe(), "throughput test failed on every stream");
    assert_eq!(SpeedTestError::WriteError.describe(), "time-series store write failed");
}
