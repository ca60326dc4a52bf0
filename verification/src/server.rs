//! The server directory's candidates and the latency prober's selection.
//!
//! Probing each candidate is a network exchange and happens outside the
//! engine; it hands back one [`ProbeOutcome`] per candidate, in the
//! candidate list's order. Selection from those outcomes is the engine's
//! logic: the candidate with the minimal measured latency wins, and among
//! equal latencies the one earliest in the candidate list, so the result is
//! deterministic for a fixed candidate ordering.

use vstd::prelude::*;

use crate::error::SpeedTestError;

verus! {

/// One remote endpoint offered by the server directory. The fields are
/// carried for the transfer stage and for display; the selection logic reads
/// only the candidate's position in the list.
#[derive(Debug)]
pub struct ServerCandidate {
    /// Host name or address of the candidate.
    pub host: String,
    /// URL of the candidate's test resource.
    pub url: String,
}

/// What one latency probe of one candidate observed.
#[derive(Clone, Copy, Debug, PartialEq, Eq, Structural)]
pub enum ProbeOutcome {
    /// The probe got a response after the given round-trip time.
    Reachable {
        /// Measured round-trip latency in milliseconds.
        latency_ms: u64,
    },
    /// The probe failed or timed out; the candidate is excluded from
    /// selection.
    Unreachable,
}

/// A successful latency measurement: which candidate (by its position in the
/// candidate list) and the measured round-trip time.
#[derive(Clone, Copy, Debug, PartialEq, Eq, Structural)]
pub struct LatencySample {
    /// Position of the candidate in the candidate list.
    pub index: usize,
    /// Measured round-trip latency in milliseconds.
    pub latency_ms: u64,
}

/// The prober's result: which candidate won (by its position in the
/// candidate list) and its measured latency, reported for downstream
/// display and for the final metric point.
#[derive(Clone, Copy, Debug, PartialEq, Eq, Structural)]
pub struct SelectedServer {
    /// Position of the selected candidate in the candidate list.
    pub index: usize,
    /// The selected candidate's measured round-trip latency in milliseconds.
    pub latency_ms: u64,
}

/// Holds when at least one probe outcome is reachable.
pub open spec fn any_reachable(outcomes: Seq<ProbeOutcome>) -> bool {
    exists|i: int| 0 <= i < outcomes.len() && outcomes[i] is Reachable
}

/// Holds when `sel` names a reachable outcome of minimal latency, and the
/// earliest such outcome in probe order.
pub open spec fn is_best_probe(outcomes: Seq<ProbeOutcome>, sel: SelectedServer) -> bool {
    &&& 0 <= sel.index < outcomes.len()
    &&& outcomes[sel.index as int] == (ProbeOutcome::Reachable { latency_ms: sel.latency_ms })
    &&& forall|j: int|
        0 <= j < outcomes.len() && outcomes[j] is Reachable ==> outcomes[j]->latency_ms
            >= sel.latency_ms
    &&& forall|j: int|
        0 <= j < sel.index && outcomes[j] is Reachable ==> outcomes[j]->latency_ms
            > sel.latency_ms
}

/// The latency samples that a sequence of probe outcomes yields: one per
/// reachable outcome, in probe order, each holding its candidate's position.
pub open spec fn samples_of(outcomes: Seq<ProbeOutcome>) -> Seq<LatencySample>
    decreases outcomes.len(),
{
    if outcomes.len() == 0 {
        Seq::empty()
    } else {
        let prefix = samples_of(outcomes.drop_last());
        if outcomes.last() is Reachable {
            prefix.push(
                LatencySample {
                    index: (outcomes.len() - 1) as usize,
                    latency_ms: outcomes.last()->latency_ms,
                },
            )
        } else {
            prefix
        }
    }
}

/// Holds when position `k` in `samples` carries the minimal latency of the
/// whole sequence and every earlier position carries a strictly larger one;
/// at most one position can satisfy this.
pub open spec fn is_first_min(samples: Seq<LatencySample>, k: int) -> bool {
    &&& 0 <= k < samples.len()
    &&& forall|j: int| 0 <= j < samples.len() ==> samples[k].latency_ms <= samples[j].latency_ms
    &&& forall|j: int| 0 <= j < k ==> samples[j].latency_ms > samples[k].latency_ms
}

/// The tie-break is deterministic: no two distinct positions can both be the
/// first minimum of one sample sequence.
pub proof fn lemma_first_min_unique(samples: Seq<LatencySample>, k1: int, k2: int)
    requires
        is_first_min(samples, k1),
        is_first_min(samples, k2),
    ensures
        k1 == k2,
{
    if k1 < k2 {
        assert(samples[k1].latency_ms > samples[k2].latency_ms);
        assert(samples[k2].latency_ms >= samples[k1].latency_ms);
    } else if k2 < k1 {
        assert(samples[k2].latency_ms > samples[k1].latency_ms);
        assert(samples[k1].latency_ms >= samples[k2].latency_ms);
    }
}

/// What the collected samples say of the outcomes they came from: every
/// sample names a reachable outcome and carries its latency, every
/// reachable outcome has a sample, and the samples' candidate positions
/// are strictly increasing, so probe order is kept.
pub proof fn lemma_samples_of_characterization(outcomes: Seq<ProbeOutcome>)
    requires
        outcomes.len() <= usize::MAX,
    ensures
        forall|m: int|
            0 <= m < samples_of(outcomes).len() ==> {
                &&& (#[trigger] samples_of(outcomes)[m]).index < outcomes.len()
                &&& outcomes[samples_of(outcomes)[m].index as int] == (ProbeOutcome::Reachable {
                    latency_ms: samples_of(outcomes)[m].latency_ms,
                })
            },
        forall|i: int|
            0 <= i < outcomes.len() && (#[trigger] outcomes[i]) is Reachable ==> exists|m: int|
                0 <= m < samples_of(outcomes).len() && (#[trigger] samples_of(outcomes)[m]).index
                    == i,
        forall|m1: int, m2: int|
            0 <= m1 < m2 < samples_of(outcomes).len() ==> (#[trigger] samples_of(
                outcomes,
            )[m1]).index < (#[trigger] samples_of(outcomes)[m2]).index,
    decreases outcomes.len(),
{
    if outcomes.len() > 0 {
        let pre = outcomes.drop_last();
        lemma_samples_of_characterization(pre);
        let s = samples_of(outcomes);
        let sp = samples_of(pre);
        assert(forall|i: int| 0 <= i < pre.len() ==> pre[i] == outcomes[i]);
        if outcomes.last() is Reachable {
            let pushed = LatencySample {
                index: (outcomes.len() - 1) as usize,
                latency_ms: outcomes.last()->latency_ms,
            };
            assert(s == sp.push(pushed));
            assert(s[sp.len() as int] == pushed);
            assert(forall|m: int| 0 <= m < sp.len() ==> s[m] == sp[m]);
            assert forall|i: int|
                0 <= i < outcomes.len() && (#[trigger] outcomes[i]) is Reachable implies exists|
                m: int,
            | 0 <= m < s.len() && (#[trigger] s[m]).index == i by {
                if i < pre.len() {
                    let m = choose|m: int| 0 <= m < sp.len() && (#[trigger] sp[m]).index == i;
                    assert(s[m].index == i);
                } else {
                    assert(s[sp.len() as int].index == i);
                }
            };
        } else {
            assert(s == sp);
            assert forall|i: int|
                0 <= i < outcomes.len() && (#[trigger] outcomes[i]) is Reachable implies exists|
                m: int,
            | 0 <= m < s.len() && (#[trigger] s[m]).index == i by {
                assert(i < pre.len());
            };
        }
    }
}

/// Selecting from the collected samples selects the same server as
/// selecting straight from the outcomes: the first minimal sample names
/// the first minimal reachable outcome.
pub proof fn lemma_sample_selection_is_probe_selection(outcomes: Seq<ProbeOutcome>, k: int)
    requires
        outcomes.len() <= usize::MAX,
        is_first_min(samples_of(outcomes), k),
    ensures
        is_best_probe(
            outcomes,
            SelectedServer {
                index: samples_of(outcomes)[k].index,
                latency_ms: samples_of(outcomes)[k].latency_ms,
            },
        ),
{
    lemma_samples_of_characterization(outcomes);
    let s = samples_of(outcomes);
    let sel = SelectedServer { index: s[k].index, latency_ms: s[k].latency_ms };
    assert forall|j: int|
        0 <= j < outcomes.len() && outcomes[j] is Reachable implies outcomes[j]->latency_ms
        >= sel.latency_ms by {
        let m = choose|m: int| 0 <= m < s.len() && (#[trigger] s[m]).index == j;
        assert(s[k].latency_ms <= s[m].latency_ms);
    };
    assert forall|j: int|
        0 <= j < sel.index && outcomes[j] is Reachable implies outcomes[j]->latency_ms
        > sel.latency_ms by {
        let m = choose|m: int| 0 <= m < s.len() && (#[trigger] s[m]).index == j;
        if m > k {
            assert(s[k].index < s[m].index);
        }
        assert(m < k);
        assert(s[m].latency_ms > s[k].latency_ms);
    };
}

/// Turns the probe outcomes into the prober's latency samples: one sample
/// per reachable outcome, in probe order.
pub fn collect_samples(outcomes: &Vec<ProbeOutcome>) -> (samples: Vec<LatencySample>)
    ensures
        samples@ == samples_of(outcomes@),
{
    let mut samples: Vec<LatencySample> = Vec::new();
    let mut i: usize = 0;
    while i < outcomes.len()
        invariant
            i <= outcomes@.len(),
            samples@ == samples_of(outcomes@.take(i as int)),
        decreases outcomes@.len() - i,
    {
        match outcomes[i] {
            ProbeOutcome::Reachable { latency_ms } => {
                samples.push(LatencySample { index: i, latency_ms });
            },
            ProbeOutcome::Unreachable => {},
        }
        proof {
            assert(outcomes@.take(i + 1).drop_last() =~= outcomes@.take(i as int));
            assert(outcomes@.take(i + 1).last() == outcomes@[i as int]);
        }
        i = i + 1;
    }
    proof {
        assert(outcomes@.take(outcomes@.len() as int) =~= outcomes@);
    }
    samples
}

/// Selects the best sample: minimal latency, earliest in probe order among
/// equals. Fails with `NoReachableServerError` exactly when there is no
/// sample to select from.
pub fn select_best(samples: &Vec<LatencySample>) -> (r: Result<SelectedServer, SpeedTestError>)
    ensures
        r is Err <==> samples@.len() == 0,
        r matches Err(e) ==> e == SpeedTestError::NoReachableServerError,
        r matches Ok(sel) ==> exists|k: int|
            #[trigger] is_first_min(samples@, k) && sel.index == samples@[k].index
                && sel.latency_ms == samples@[k].latency_ms,
{
    if samples.len() == 0 {
        return Err(SpeedTestError::NoReachableServerError);
    }
    let mut best_k: usize = 0;
    let mut i: usize = 1;
    while i < samples.len()
        invariant
            0 < samples@.len(),
            best_k < i <= samples@.len(),
            forall|j: int|
                0 <= j < i ==> samples@[best_k as int].latency_ms <= samples@[j].latency_ms,
            forall|j: int|
                0 <= j < best_k ==> samples@[j].latency_ms > samples@[best_k as int].latency_ms,
        decreases samples@.len() - i,
    {
        if samples[i].latency_ms < samples[best_k].latency_ms {
            best_k = i;
        }
        i = i + 1;
    }
    proof {
        assert(is_first_min(samples@, best_k as int));
    }
    Ok(SelectedServer { index: samples[best_k].index, latency_ms: samples[best_k].latency_ms })
}

/// Selects the best candidate straight from the probe outcomes: the
/// reachable candidate of minimal latency, earliest in the candidate list
/// among equals. Fails with `NoReachableServerError` exactly when every
/// probe failed.
pub fn probe_select(outcomes: &Vec<ProbeOutcome>) -> (r: Result<SelectedServer, SpeedTestError>)
    ensures
        r is Err <==> !any_reachable(outcomes@),
        r matches Err(e) ==> e == SpeedTestError::NoReachableServerError,
        r matches Ok(sel) ==> is_best_probe(outcomes@, sel),
{
    let mut found: bool = false;
    let mut best_i: usize = 0;
    let mut best_l: u64 = 0;
    let mut i: usize = 0;
    while i < outcomes.len()
        invariant
            i <= outcomes@.len(),
            !found ==> forall|j: int| 0 <= j < i ==> !(outcomes@[j] is Reachable),
            found ==> {
                &&& best_i < i
                &&& outcomes@[best_i as int] == (ProbeOutcome::Reachable { latency_ms: best_l })
                &&& forall|j: int|
                    0 <= j < i && outcomes@[j] is Reachable ==> outcomes@[j]->latency_ms >= best_l
                &&& forall|j: int|
                    0 <= j < best_i && outcomes@[j] is Reachable ==> outcomes@[j]->latency_ms
                        > best_l
            },
        decreases outcomes@.len() - i,
    {
        match outcomes[i] {
            ProbeOutcome::Reachable { latency_ms } => {
                if !found || latency_ms < best_l {
                    found = true;
                    best_i = i;
                    best_l = latency_ms;
                }
            },
            ProbeOutcome::Unreachable => {},
        }
        i = i + 1;
    }
    if found {
        Ok(SelectedServer { index: best_i, latency_ms: best_l })
    } else {
        Err(SpeedTestError::NoReachableServerError)
    }
}

} // verus!
