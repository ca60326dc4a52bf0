//! The timed throughput test's accounting.
//!
//! The chunk transfers themselves are network work and run outside the
//! engine, concurrently over several streams. The engine owns the decisions:
//! whether a stream may start another chunk (only while the elapsed time is
//! within the configured window), the shared byte and progress counters, and
//! the final rate. In-flight chunks are allowed to complete after the window
//! closes, so the reported elapsed time is the actual completion time of the
//! last chunk — never more than one chunk's transfer time beyond the window
//! — and the rate is computed over that actual elapsed time, not the nominal
//! deadline.

use vstd::prelude::*;

use crate::config::TestConfig;
use crate::error::SpeedTestError;

verus! {

use vstd::arithmetic::div_mod::lemma_div_denominator;
use vstd::arithmetic::div_mod::lemma_div_multiples_vanish;

/// Largest byte total a test may account for; keeps `bytes * 8` within
/// `u64` when the bit rate is derived.
pub const MAX_MEASURED_BYTES: u64 = u64::MAX / 8;

/// The outcome of one throughput test direction: how many bytes moved and
/// over how much wall-clock time. Immutable once produced.
#[derive(Clone, Copy, Debug, PartialEq, Eq, Structural)]
pub struct ThroughputResult {
    /// Total bytes transferred across all streams.
    pub bytes: u64,
    /// Elapsed wall-clock time of the test, in milliseconds.
    pub millis: u64,
}

impl ThroughputResult {
    /// A measurement is meaningful only over a positive elapsed time, and
    /// its byte total must leave the derived bit count within `u64`.
    pub open spec fn wf(self) -> bool {
        &&& self.millis >= 1
        &&& self.bytes <= MAX_MEASURED_BYTES
    }

    /// The integer kilobits-per-second view: `bytes * 8 / millis`, which is
    /// the bits-per-second rate `bytes * 8 * 1000 / millis` divided by 1000,
    /// truncated to an integer.
    pub open spec fn kbps_spec(self) -> int
        recommends
            self.wf(),
    {
        (self.bytes * 8) / self.millis as int
    }

    /// Packages a finished transfer of `bytes` bytes over `millis`
    /// milliseconds.
    pub fn new(bytes: u64, millis: u64) -> (r: Self)
        requires
            millis >= 1,
            bytes <= MAX_MEASURED_BYTES,
        ensures
            r.bytes == bytes,
            r.millis == millis,
            r.wf(),
    {
        ThroughputResult { bytes, millis }
    }

    /// The integer kilobits-per-second view of the rate.
    pub fn kbps(&self) -> (r: u64)
        requires
            self.wf(),
        ensures
            r == self.kbps_spec(),
    {
        (self.bytes * 8) / self.millis
    }

    /// The exact integer bits-per-second view: `bytes * 8 * 1000 / millis`,
    /// truncated to an integer.
    pub open spec fn bps_spec(self) -> int
        recommends
            self.wf(),
    {
        (self.bytes * 8 * 1000) / self.millis as int
    }

    /// The integer bits-per-second view of the rate.
    pub fn bps(&self) -> (r: u128)
        requires
            self.wf(),
        ensures
            r == self.bps_spec(),
    {
        (self.bytes as u128 * 8000) / (self.millis as u128)
    }
}

/// The kilobits-per-second view of a measurement is exactly its
/// bits-per-second view integer-divided by 1000.
pub proof fn lemma_kbps_is_bps_over_1000(m: ThroughputResult)
    requires
        m.wf(),
    ensures
        m.kbps_spec() == m.bps_spec() / 1000,
{
    let b = m.bytes as int;
    let t = m.millis as int;
    lemma_div_denominator(8 * b * 1000, t, 1000);
    lemma_div_denominator(8 * b * 1000, 1000, t);
    lemma_div_multiples_vanish(8 * b, 1000);
    assert(8 * b * 1000 == 1000 * (8 * b));
}

/// The running state of one timed, multi-stream throughput test: the shared
/// counters every stream reports into, and the window that admits new chunk
/// transfers.
#[derive(Clone, Copy, Debug, PartialEq, Eq, Structural)]
pub struct ThroughputTest {
    /// Maximum duration of the window that admits new chunk transfers, in
    /// milliseconds.
    pub window_ms: u64,
    /// Shared byte counter: total bytes of all completed chunks.
    pub total_bytes: u64,
    /// Progress counter: number of completed chunks, the test's only
    /// progress signal.
    pub chunk_count: u64,
    /// Longest single chunk transfer seen, in milliseconds.
    pub max_chunk_ms: u64,
    /// Latest chunk completion instant, in milliseconds from the test's
    /// start.
    pub last_completion_ms: u64,
    /// Number of streams that connected.
    pub streams_ok: u64,
    /// Number of streams that failed to connect.
    pub streams_failed: u64,
}

impl ThroughputTest {
    /// Invariant of the accounting: every chunk was issued within the
    /// window, so the latest completion can exceed the window by at most the
    /// longest chunk's transfer time; the byte total stays small enough for
    /// the rate computation; and a test that recorded no chunk has counted
    /// nothing.
    pub open spec fn wf(self) -> bool {
        &&& self.last_completion_ms <= self.window_ms + self.max_chunk_ms
        &&& self.total_bytes <= MAX_MEASURED_BYTES
        &&& self.chunk_count == 0 ==> {
            &&& self.total_bytes == 0
            &&& self.max_chunk_ms == 0
            &&& self.last_completion_ms == 0
        }
    }

    /// Starts a test over the configured window with all counters at zero.
    pub fn new(config: &TestConfig) -> (t: Self)
        ensures
            t.window_ms == config.window_ms,
            t.total_bytes == 0,
            t.chunk_count == 0,
            t.max_chunk_ms == 0,
            t.last_completion_ms == 0,
            t.streams_ok == 0,
            t.streams_failed == 0,
            t.wf(),
    {
        ThroughputTest {
            window_ms: config.window_ms,
            total_bytes: 0,
            chunk_count: 0,
            max_chunk_ms: 0,
            last_completion_ms: 0,
            streams_ok: 0,
            streams_failed: 0,
        }
    }

    /// Records that one stream opened its connection.
    pub fn stream_connected(&mut self)
        requires
            old(self).streams_ok < u64::MAX,
        ensures
            *final(self) == (ThroughputTest { streams_ok: (old(self).streams_ok + 1) as u64, ..*old(self) }),
    {
        self.streams_ok = self.streams_ok + 1;
    }

    /// Records that one stream failed to connect. A single stream's failure
    /// is not fatal; the test fails only when no stream at all connected.
    pub fn stream_failed(&mut self)
        requires
            old(self).streams_failed < u64::MAX,
        ensures
            *final(self) == (ThroughputTest {
                streams_failed: (old(self).streams_failed + 1) as u64,
                ..*old(self)
            }),
    {
        self.streams_failed = self.streams_failed + 1;
    }

    /// Whether a stream may start another chunk transfer at elapsed time
    /// `elapsed_ms`: only while the window has not been exceeded.
    pub fn may_start_chunk(&self, elapsed_ms: u64) -> (r: bool)
        ensures
            r <==> elapsed_ms <= self.window_ms,
    {
        elapsed_ms <= self.window_ms
    }

    /// Records one completed chunk: the transferred bytes join the shared
    /// counter, the progress counter advances by one, and the completion
    /// instant is folded into the elapsed-time accounting. The chunk must
    /// have been issued within the window, as `may_start_chunk` enforces,
    /// which keeps its completion within one chunk-transfer time of the
    /// window's end.
    pub fn record_chunk(&mut self, bytes: u64, started_ms: u64, completed_ms: u64)
        requires
            old(self).wf(),
            started_ms <= old(self).window_ms,
            started_ms <= completed_ms,
            old(self).total_bytes + bytes <= MAX_MEASURED_BYTES,
            old(self).chunk_count < u64::MAX,
        ensures
            final(self).wf(),
            final(self).total_bytes == old(self).total_bytes + bytes,
            final(self).chunk_count == old(self).chunk_count + 1,
            final(self).max_chunk_ms == if completed_ms - started_ms > old(self).max_chunk_ms {
                completed_ms - started_ms
            } else {
                old(self).max_chunk_ms as int
            },
            final(self).last_completion_ms == if completed_ms > old(self).last_completion_ms {
                completed_ms as int
            } else {
                old(self).last_completion_ms as int
            },
            final(self).window_ms == old(self).window_ms,
            final(self).streams_ok == old(self).streams_ok,
            final(self).streams_failed == old(self).streams_failed,
    {
        let chunk_ms = completed_ms - started_ms;
        self.total_bytes = self.total_bytes + bytes;
        self.chunk_count = self.chunk_count + 1;
        if chunk_ms > self.max_chunk_ms {
            self.max_chunk_ms = chunk_ms;
        }
        if completed_ms > self.last_completion_ms {
            self.last_completion_ms = completed_ms;
        }
    }

    /// Closes the test. It fails with `TransferError` exactly when no stream
    /// connected or no chunk completed past the starting instant — a run
    /// that transferred nothing is reported as a failure, never as a
    /// measurement of zero. On success the result carries the shared byte
    /// counter and the actual completion time, which exceeds the window by
    /// at most the longest single chunk's transfer time.
    pub fn finish(&self) -> (r: Result<ThroughputResult, SpeedTestError>)
        requires
            self.wf(),
        ensures
            r is Err <==> (self.streams_ok == 0 || self.last_completion_ms == 0),
            r matches Err(e) ==> e == SpeedTestError::TransferError,
            r matches Ok(m) ==> {
                &&& m.wf()
                &&& m.bytes == self.total_bytes
                &&& m.millis == self.last_completion_ms
                &&& m.millis <= self.window_ms + self.max_chunk_ms
            },
    {
        if self.streams_ok == 0 || self.last_completion_ms == 0 {
            Err(SpeedTestError::TransferError)
        } else {
            Ok(ThroughputResult::new(self.total_bytes, self.last_completion_ms))
        }
    }
}

/// One chunk transfer as a stream reports it: its byte count and when it
/// started and completed, in milliseconds from the test's start.
#[derive(Clone, Copy, Debug, PartialEq, Eq, Structural)]
pub struct ChunkReport {
    /// Bytes the chunk transferred.
    pub bytes: u64,
    /// When the chunk's transfer was issued.
    pub started_ms: u64,
    /// When the chunk's transfer completed.
    pub completed_ms: u64,
}

/// A chunk is admitted into the test exactly when it was issued within the
/// window; a chunk issued later is never started.
pub open spec fn chunk_admitted(c: ChunkReport, window_ms: u64) -> bool {
    c.started_ms <= window_ms
}

/// Total bytes of the admitted chunks.
pub open spec fn admitted_bytes(chunks: Seq<ChunkReport>, window_ms: u64) -> int
    decreases chunks.len(),
{
    if chunks.len() == 0 {
        0
    } else {
        admitted_bytes(chunks.drop_last(), window_ms) + if chunk_admitted(
            chunks.last(),
            window_ms,
        ) {
            chunks.last().bytes as int
        } else {
            0
        }
    }
}

/// Latest completion instant among the admitted chunks, zero when none was
/// admitted.
pub open spec fn last_admitted_completion(chunks: Seq<ChunkReport>, window_ms: u64) -> int
    decreases chunks.len(),
{
    if chunks.len() == 0 {
        0
    } else {
        let prefix = last_admitted_completion(chunks.drop_last(), window_ms);
        if chunk_admitted(chunks.last(), window_ms) && chunks.last().completed_ms > prefix {
            chunks.last().completed_ms as int
        } else {
            prefix
        }
    }
}

/// Longest transfer duration among the admitted chunks, zero when none was
/// admitted.
pub open spec fn max_admitted_duration(chunks: Seq<ChunkReport>, window_ms: u64) -> int
    decreases chunks.len(),
{
    if chunks.len() == 0 {
        0
    } else {
        let prefix = max_admitted_duration(chunks.drop_last(), window_ms);
        if chunk_admitted(chunks.last(), window_ms) && chunks.last().completed_ms
            - chunks.last().started_ms > prefix {
            chunks.last().completed_ms - chunks.last().started_ms
        } else {
            prefix
        }
    }
}

/// The admitted byte total of a prefix never exceeds that of the whole
/// report sequence.
pub proof fn lemma_admitted_bytes_prefix(chunks: Seq<ChunkReport>, window_ms: u64, i: int)
    requires
        0 <= i <= chunks.len(),
    ensures
        admitted_bytes(chunks.take(i), window_ms) <= admitted_bytes(chunks, window_ms),
    decreases chunks.len() - i,
{
    if i == chunks.len() {
        assert(chunks.take(i) =~= chunks);
    } else {
        assert(chunks.take(i + 1).drop_last() =~= chunks.take(i));
        assert(chunks.take(i + 1).last() == chunks[i]);
        lemma_admitted_bytes_prefix(chunks, window_ms, i + 1);
    }
}

/// Runs the whole accounting of one test from its reports: counts the
/// connected streams, records every chunk that was issued within the window
/// — once the window has passed, later chunks are never issued — and closes
/// the test. The result's byte total and elapsed time are exactly the
/// admitted chunks', and the elapsed time exceeds the window by at most the
/// longest admitted chunk's transfer duration.
pub fn run_accounting(config: &TestConfig, connected: u64, chunks: &Vec<ChunkReport>) -> (r: Result<
    ThroughputResult,
    SpeedTestError,
>)
    requires
        forall|i: int|
            0 <= i < chunks@.len() ==> (#[trigger] chunks@[i]).started_ms <= chunks@[i].completed_ms,
        admitted_bytes(chunks@, config.window_ms) <= MAX_MEASURED_BYTES,
        chunks@.len() < u64::MAX,
    ensures
        r is Err <==> (connected == 0 || last_admitted_completion(chunks@, config.window_ms) == 0),
        r matches Err(e) ==> e == SpeedTestError::TransferError,
        r matches Ok(m) ==> {
            &&& m.wf()
            &&& m.bytes == admitted_bytes(chunks@, config.window_ms)
            &&& m.millis == last_admitted_completion(chunks@, config.window_ms)
            &&& m.millis <= config.window_ms + max_admitted_duration(chunks@, config.window_ms)
        },
{
    let mut t = ThroughputTest::new(config);
    let mut s: u64 = 0;
    while s < connected
        invariant
            s <= connected,
            t.window_ms == config.window_ms,
            t.total_bytes == 0,
            t.chunk_count == 0,
            t.max_chunk_ms == 0,
            t.last_completion_ms == 0,
            t.streams_ok == s,
            t.streams_failed == 0,
        decreases connected - s,
    {
        t.stream_connected();
        s = s + 1;
    }
    let mut i: usize = 0;
    while i < chunks.len()
        invariant
            i <= chunks@.len(),
            chunks@.len() < u64::MAX,
            forall|j: int|
                0 <= j < chunks@.len() ==> (#[trigger] chunks@[j]).started_ms
                    <= chunks@[j].completed_ms,
            admitted_bytes(chunks@, config.window_ms) <= MAX_MEASURED_BYTES,
            t.wf(),
            t.window_ms == config.window_ms,
            t.streams_ok == connected,
            t.chunk_count <= i,
            t.total_bytes == admitted_bytes(chunks@.take(i as int), config.window_ms),
            t.last_completion_ms == last_admitted_completion(
                chunks@.take(i as int),
                config.window_ms,
            ),
            t.max_chunk_ms == max_admitted_duration(chunks@.take(i as int), config.window_ms),
        decreases chunks@.len() - i,
    {
        let c = chunks[i];
        proof {
            assert(chunks@.take(i + 1).drop_last() =~= chunks@.take(i as int));
            assert(chunks@.take(i + 1).last() == chunks@[i as int]);
            lemma_admitted_bytes_prefix(chunks@, config.window_ms, i + 1);
        }
        if t.may_start_chunk(c.started_ms) {
            t.record_chunk(c.bytes, c.started_ms, c.completed_ms);
        }
        i = i + 1;
    }
    proof {
        assert(chunks@.take(chunks@.len() as int) =~= chunks@);
    }
    t.finish()
}

} // verus!
