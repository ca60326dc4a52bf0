use speedmeter::error::SpeedTestError;
use speedmeter::server::collect_samples;
use speedmeter::server::probe_select;
use speedmeter::server::select_best;
use speedmeter::server::LatencySample;
use speedmeter::server::ProbeOutcome;

fn reachable(latency_ms: u64) -> ProbeOutcome {
    ProbeOutcome::Reachable { latency_ms }
}

#[test]
fn selects_strict_minimum() {
    let outcomes = vec![reachable(50), reachable(30), reachable(40)];
    let sel = probe_select(&outcomes).unwrap();
    assert_eq!(sel.index, 1);
    assert_eq!(sel.latency_ms, 30);
}

#[test]
fn tie_break_prefers_earlier_candidate() {
    let outcomes = vec![reachable(50), reachable(20), reachable(20)];
    let sel = probe_select(&outcomes).unwrap();
    assert_eq!(sel.index, 1);
    assert_eq!(sel.latency_ms, 20);
}

#[test]
fn unreachable_candidates_are_excluded() {
    let outcomes = vec![ProbeOutcome::Unreachable, reachable(40), reachable(20)];
    let sel = probe_select(&outcomes).unwrap();
    assert_eq!(sel.index, 2);
    assert_eq!(sel.latency_ms, 20);
}

#[test]
fn all_probes_failing_yields_no_reachable_server() {
    let outcomes = vec![
        ProbeOutcome::Unreachable,
        ProbeOutcome::Unreachable,
        ProbeOutcome::Unreachable,
    ];
    let r = probe_select(&outcomes);
    assert_eq!(r, Err(SpeedTestError::NoReachableServerError));
}

#[test]
fn empty_candidate_list_yields_no_reachable_server() {
    let outcomes: Vec<ProbeOutcome> = vec![];
    let r = probe_select(&outcomes);
    assert_eq!(r, Err(SpeedTestError::NoReachableServerError));
}

#[test]
fn samples_keep_probe_order_and_candidate_positions() {
    let outcomes = vec![reachable(50), ProbeOutcome::Unreachable, reachable(20)];
    let samples = collect_samples(&outcomes);
    assert_eq!(
        samples,
        vec![
            LatencySample { index: 0, latency_ms: 50 },
            LatencySample { index: 2, latency_ms: 20 },
        ]
    );
}

#[test]
fn select_best_picks_minimal_sample() {
    let samples = vec![
        LatencySample { index: 0, latency_ms: 50 },
        LatencySample { index: 2, latency_ms: 20 },
        LatencySample { index: 5, latency_ms: 20 },
    ];
    let sel = select_best(&samples).unwrap();
    assert_eq!(sel.index, 2);
    assert_eq!(sel.latency_ms, 20);
}

#[test]
fn select_best_without_samples_fails() {
    let samples: Vec<LatencySample> = vec![];
    assert_eq!(select_best(&samples), Err(SpeedTestError::NoReachableServerError));
}
