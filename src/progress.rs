//! Progress accounting for one chunked download: byte counts, percent,
//! speed and remaining time, emitted at a bounded rate.

use vstd::prelude::*;

verus! {

/// One progress report during a download. All quantities are whole numbers:
/// `percent` in 0..=100, `speed` in bytes per second, `eta_secs` in seconds.
#[derive(Debug, Clone, Copy, PartialEq, Eq)]
pub struct ProgressSample {
    pub downloaded: u64,
    /// Declared size of the body; zero when unknown.
    pub total: u64,
    pub percent: u64,
    pub speed: u64,
    pub eta_secs: u64,
    /// Which file of the task this is (0 for video, 1 for audio).
    pub file_index: u32,
    /// How many files the task downloads.
    pub file_count: u32,
}

/// The running state of one download's progress accounting.
#[derive(Debug, Clone, Copy, PartialEq, Eq)]
pub struct ProgressTracker {
    pub downloaded: u64,
    pub total: u64,
    pub file_index: u32,
    pub file_count: u32,
    /// Least time between two emitted samples, in milliseconds.
    pub interval_ms: u64,
    /// When the last sample was emitted, in milliseconds since the start.
    pub last_emit_ms: Option<u64>,
}

/// Percent done; 0 when the size is unknown, at most 100.
pub open spec fn percent_of(downloaded: int, total: int) -> int {
    if total == 0 {
        0
    } else if downloaded * 100 / total > 100 {
        100
    } else {
        downloaded * 100 / total
    }
}

/// Bytes per second since the start; 0 before any time has passed.
pub open spec fn speed_of(downloaded: int, elapsed_ms: int) -> int {
    if elapsed_ms == 0 {
        0
    } else if downloaded * 1000 / elapsed_ms > u64::MAX {
        u64::MAX as int
    } else {
        downloaded * 1000 / elapsed_ms
    }
}

/// Seconds left at the current speed; 0 when the speed or the size is
/// unknown, or nothing is left.
pub open spec fn eta_of(downloaded: int, total: int, speed: int) -> int {
    if speed == 0 || total == 0 || total <= downloaded {
        0
    } else {
        (total - downloaded) / speed
    }
}

/// The sample that describes a tracker's state at a given time.
pub open spec fn sample_of(t: ProgressTracker, elapsed_ms: u64) -> ProgressSample {
    let speed = speed_of(t.downloaded as int, elapsed_ms as int);
    ProgressSample {
        downloaded: t.downloaded,
        total: t.total,
        percent: percent_of(t.downloaded as int, t.total as int) as u64,
        speed: speed as u64,
        eta_secs: eta_of(t.downloaded as int, t.total as int, speed) as u64,
        file_index: t.file_index,
        file_count: t.file_count,
    }
}

/// A chunk received at `elapsed_ms` is reported: it is the first, or the
/// interval has passed since the last report.
pub open spec fn emits(t: ProgressTracker, elapsed_ms: u64) -> bool {
    match t.last_emit_ms {
        None => true,
        Some(last) => elapsed_ms >= last + t.interval_ms,
    }
}

/// The tracker after a chunk of `len` bytes arrived at `elapsed_ms`.
pub open spec fn after_chunk(t: ProgressTracker, len: u64, elapsed_ms: u64) -> ProgressTracker {
    ProgressTracker {
        downloaded: (t.downloaded + len) as u64,
        last_emit_ms: if emits(t, elapsed_ms) {
            Some(elapsed_ms)
        } else {
            t.last_emit_ms
        },
        ..t
    }
}

/// Computes one sample from a byte count, a declared size and the time
/// since the start.
pub fn compute_sample(t: &ProgressTracker, elapsed_ms: u64) -> (r: ProgressSample)
    ensures
        r == sample_of(*t, elapsed_ms),
{
    let d = t.downloaded as u128;
    let total = t.total as u128;
    let percent: u64 = if total == 0 {
        0
    } else {
        let p = d * 100 / total;
        if p > 100 {
            100
        } else {
            p as u64
        }
    };
    let speed: u64 = if elapsed_ms == 0 {
        0
    } else {
        let s = d * 1000 / (elapsed_ms as u128);
        if s > u64::MAX as u128 {
            u64::MAX
        } else {
            s as u64
        }
    };
    let eta_secs: u64 = if speed == 0 || t.total == 0 || t.total <= t.downloaded {
        0
    } else {
        (t.total - t.downloaded) / speed
    };
    ProgressSample {
        downloaded: t.downloaded,
        total: t.total,
        percent,
        speed,
        eta_secs,
        file_index: t.file_index,
        file_count: t.file_count,
    }
}

impl ProgressTracker {
    /// A tracker for file `file_index` of `file_count`, with the declared
    /// size (0 when unknown), reporting at most once per `interval_ms`.
    pub fn new(total: u64, file_index: u32, file_count: u32, interval_ms: u64) -> (r: Self)
        ensures
            r == (ProgressTracker {
                downloaded: 0,
                total,
                file_index,
                file_count,
                interval_ms,
                last_emit_ms: None,
            }),
    {
        ProgressTracker { downloaded: 0, total, file_index, file_count, interval_ms, last_emit_ms: None }
    }

    /// Accounts for a chunk of `len` bytes received `elapsed_ms` after the
    /// start, and returns a sample when one is due.
    pub fn record_chunk(&mut self, len: u64, elapsed_ms: u64) -> (r: Option<ProgressSample>)
        requires
            old(self).downloaded + len <= u64::MAX,
        ensures
            *final(self) == after_chunk(*old(self), len, elapsed_ms),
            emits(*old(self), elapsed_ms) ==> r == Some(sample_of(*final(self), elapsed_ms)),
            !emits(*old(self), elapsed_ms) ==> r is None,
    {
        let due = match self.last_emit_ms {
            None => true,
            Some(last) => elapsed_ms >= last && elapsed_ms - last >= self.interval_ms,
        };
        self.downloaded = self.downloaded + len;
        if due {
            self.last_emit_ms = Some(elapsed_ms);
            Some(compute_sample(self, elapsed_ms))
        } else {
            None
        }
    }

    /// The closing sample, always emitted once the body has ended.
    pub fn finish(&self, elapsed_ms: u64) -> (r: ProgressSample)
        ensures
            r == sample_of(*self, elapsed_ms),
    {
        compute_sample(self, elapsed_ms)
    }
}

/// Total bytes of a sequence of `(length, time)` chunks.
pub open spec fn chunk_sum(chunks: Seq<(u64, u64)>) -> int
    decreases chunks.len(),
{
    if chunks.len() == 0 {
        0
    } else {
        chunks[0].0 + chunk_sum(chunks.drop_first())
    }
}

/// The tracker after a sequence of chunks.
pub open spec fn feed(t: ProgressTracker, chunks: Seq<(u64, u64)>) -> ProgressTracker
    decreases chunks.len(),
{
    if chunks.len() == 0 {
        t
    } else {
        feed(after_chunk(t, chunks[0].0, chunks[0].1), chunks.drop_first())
    }
}

/// The samples emitted while a sequence of chunks is recorded, in order.
pub open spec fn emitted(t: ProgressTracker, chunks: Seq<(u64, u64)>) -> Seq<ProgressSample>
    decreases chunks.len(),
{
    if chunks.len() == 0 {
        Seq::empty()
    } else {
        let next = after_chunk(t, chunks[0].0, chunks[0].1);
        let rest = emitted(next, chunks.drop_first());
        if emits(t, chunks[0].1) {
            seq![sample_of(next, chunks[0].1)] + rest
        } else {
            rest
        }
    }
}

proof fn lemma_emitted_bounds(t: ProgressTracker, chunks: Seq<(u64, u64)>)
    requires
        t.downloaded + chunk_sum(chunks) <= u64::MAX,
        forall|i: int| 0 <= i < chunks.len() ==> 0 <= #[trigger] chunks[i].0,
    ensures
        feed(t, chunks).downloaded == t.downloaded + chunk_sum(chunks),
        forall|i: int|
            0 <= i < emitted(t, chunks).len() ==> t.downloaded <= (
            #[trigger] emitted(t, chunks)[i]).downloaded <= t.downloaded + chunk_sum(chunks),
        forall|i: int, j: int|
            0 <= i < j < emitted(t, chunks).len() ==> (#[trigger] emitted(t, chunks)[i]).downloaded
                <= (#[trigger] emitted(t, chunks)[j]).downloaded,
    decreases chunks.len(),
{
    if chunks.len() > 0 {
        let rest = chunks.drop_first();
        let next = after_chunk(t, chunks[0].0, chunks[0].1);
        assert(chunk_sum(rest) >= 0) by {
            lemma_chunk_sum_nonneg(rest);
        }
        assert(forall|i: int| 0 <= i < rest.len() ==> 0 <= #[trigger] rest[i].0);
        lemma_emitted_bounds(next, rest);
        let e = emitted(t, chunks);
        let er = emitted(next, rest);
        if emits(t, chunks[0].1) {
            assert(e == seq![sample_of(next, chunks[0].1)] + er);
            assert forall|i: int, j: int| 0 <= i < j < e.len() implies (#[trigger] e[i]).downloaded
                <= (#[trigger] e[j]).downloaded by {
                if i > 0 {
                    assert(e[i] == er[i - 1]);
                    assert(e[j] == er[j - 1]);
                } else {
                    assert(e[j] == er[j - 1]);
                }
            }
            assert forall|i: int| 0 <= i < e.len() implies t.downloaded <= (
            #[trigger] e[i]).downloaded <= t.downloaded + chunk_sum(chunks) by {
                if i > 0 {
                    assert(e[i] == er[i - 1]);
                }
            }
        }
    }
}

proof fn lemma_chunk_sum_nonneg(chunks: Seq<(u64, u64)>)
    ensures
        chunk_sum(chunks) >= 0,
    decreases chunks.len(),
{
    if chunks.len() > 0 {
        lemma_chunk_sum_nonneg(chunks.drop_first());
    }
}

/// Over one download of a body of `chunk_sum(chunks)` bytes, started from a
/// fresh tracker, the reported byte counts never decrease, and the closing
/// sample reports the whole body.
pub proof fn lemma_progress_monotone(t: ProgressTracker, chunks: Seq<(u64, u64)>, end_ms: u64)
    requires
        t.downloaded == 0,
        chunk_sum(chunks) <= u64::MAX,
    ensures
        forall|i: int, j: int|
            0 <= i < j < emitted(t, chunks).len() ==> (#[trigger] emitted(t, chunks)[i]).downloaded
                <= (#[trigger] emitted(t, chunks)[j]).downloaded,
        forall|i: int|
            0 <= i < emitted(t, chunks).len() ==> (#[trigger] emitted(t, chunks)[i]).downloaded
                <= sample_of(feed(t, chunks), end_ms).downloaded,
        sample_of(feed(t, chunks), end_ms).downloaded == chunk_sum(chunks),
{
    lemma_emitted_bounds(t, chunks);
}

} // verus!
