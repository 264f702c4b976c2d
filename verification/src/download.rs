//! Streamed-download accounting. The bytes arrive as a finite sequence of
//! chunks; the reported progress after each chunk is clamped so it never
//! exceeds the declared total, while the bytes kept are exactly the bytes
//! received — the clamp affects only the reported number, never the content.

use vstd::prelude::*;

verus! {

/// The smaller of two mathematical integers.
pub open spec fn min_int(a: int, b: int) -> int {
    if a <= b {
        a
    } else {
        b
    }
}

/// The summed byte length of a chunk sequence.
pub open spec fn total_bytes(cs: Seq<Seq<u8>>) -> int
    decreases cs.len(),
{
    if cs.len() == 0 {
        0
    } else {
        total_bytes(cs.drop_last()) + cs.last().len()
    }
}

/// The concatenation of a chunk sequence: the exact content written out.
pub open spec fn concat_bytes(cs: Seq<Seq<u8>>) -> Seq<u8>
    decreases cs.len(),
{
    if cs.len() == 0 {
        Seq::empty()
    } else {
        concat_bytes(cs.drop_last()) + cs.last()
    }
}

/// The progress value reported after the last chunk: each chunk adds its
/// length, clamped to the declared total.
pub open spec fn reported_progress(cs: Seq<Seq<u8>>, total: u64) -> int
    decreases cs.len(),
{
    if cs.len() == 0 {
        0
    } else {
        min_int(reported_progress(cs.drop_last(), total) + cs.last().len(), total as int)
    }
}

/// The written content is exactly as long as the bytes received.
pub proof fn lemma_concat_len(cs: Seq<Seq<u8>>)
    ensures
        concat_bytes(cs).len() == total_bytes(cs),
    decreases cs.len(),
{
    if cs.len() > 0 {
        lemma_concat_len(cs.drop_last());
    }
}

/// For every chunk sequence whose summed length is `L`, the final reported
/// progress is `min(L, total)`: the clamp loses nothing below the declared
/// total and never reports above it.
pub proof fn lemma_final_progress_clamps(cs: Seq<Seq<u8>>, total: u64)
    ensures
        reported_progress(cs, total) == min_int(total_bytes(cs), total as int),
    decreases cs.len(),
{
    if cs.len() > 0 {
        lemma_final_progress_clamps(cs.drop_last(), total);
    }
}

/// The reported progress never leaves the interval from zero to the
/// declared total.
pub proof fn lemma_reported_progress_bounds(cs: Seq<Seq<u8>>, total: u64)
    ensures
        0 <= reported_progress(cs, total) <= total,
    decreases cs.len(),
{
    if cs.len() > 0 {
        lemma_reported_progress_bounds(cs.drop_last(), total);
    }
}

/// The reported progress is monotonically non-decreasing: a later chunk
/// never reports less than an earlier one.
pub proof fn lemma_reported_progress_monotone(cs: Seq<Seq<u8>>, total: u64, i: int, j: int)
    requires
        0 <= i <= j <= cs.len(),
    ensures
        reported_progress(cs.take(i), total) <= reported_progress(cs.take(j), total),
    decreases j - i,
{
    if i < j {
        lemma_reported_progress_monotone(cs, total, i, j - 1);
        lemma_reported_progress_bounds(cs.take(j - 1), total);
        assert(cs.take(j).drop_last() =~= cs.take(j - 1));
    }
}

/// Progress of one download session: the declared total is fixed at the
/// start, and the transferred count never decreases and never exceeds it.
#[derive(Debug, Clone, Copy, PartialEq, Eq, Structural)]
pub struct DownloadProgress {
    pub total: u64,
    pub transferred: u64,
}

impl DownloadProgress {
    /// The transferred count never exceeds the declared total.
    pub open spec fn wf(self) -> bool {
        self.transferred <= self.total
    }

    /// A fresh session: nothing transferred yet.
    pub fn new(total: u64) -> (r: DownloadProgress)
        ensures
            r.total == total,
            r.transferred == 0,
            r.wf(),
    {
        DownloadProgress { total, transferred: 0 }
    }

    /// Account one received chunk of `len` bytes and return the new
    /// progress value: the old count plus the chunk length, clamped to the
    /// total. The count never decreases.
    pub fn record(&mut self, len: u64) -> (r: u64)
        requires
            old(self).wf(),
        ensures
            final(self).total == old(self).total,
            final(self).transferred == min_int(old(self).transferred + len, old(self).total as int),
            old(self).transferred <= final(self).transferred,
            r == final(self).transferred,
            final(self).wf(),
    {
        if len >= self.total - self.transferred {
            self.transferred = self.total;
        } else {
            self.transferred = self.transferred + len;
        }
        self.transferred
    }
}

/// The streamed download, as a function of the chunks received: the caller
/// performs the network read and the file write, and feeds every chunk
/// through this accounting.
pub struct StreamingDownloader;

impl StreamingDownloader {
    /// Consume a whole chunk sequence: returns the progress value reported
    /// after each chunk, and the exact content to be written. The reported
    /// numbers clamp at `total`; the content does not.
    pub fn consume_chunks(total: u64, chunks: &Vec<Vec<u8>>) -> (r: (Vec<u64>, Vec<u8>))
        requires
            total_bytes(chunks@.map_values(|c: Vec<u8>| c@)) <= usize::MAX,
        ensures
            r.0@.len() == chunks@.len(),
            forall|i: int|
                0 <= i < chunks@.len() ==> r.0@[i] == reported_progress(
                    chunks@.map_values(|c: Vec<u8>| c@).take(i + 1),
                    total,
                ),
            r.1@ == concat_bytes(chunks@.map_values(|c: Vec<u8>| c@)),
            r.1@.len() == total_bytes(chunks@.map_values(|c: Vec<u8>| c@)),
            chunks@.len() > 0 ==> r.0@.last() == min_int(
                total_bytes(chunks@.map_values(|c: Vec<u8>| c@)),
                total as int,
            ),
    {
        let ghost cs = chunks@.map_values(|c: Vec<u8>| c@);
        let mut progress = DownloadProgress::new(total);
        let mut reports: Vec<u64> = Vec::new();
        let mut content: Vec<u8> = Vec::new();
        let mut i: usize = 0;
        while i < chunks.len()
            invariant
                i <= chunks@.len(),
                cs == chunks@.map_values(|c: Vec<u8>| c@),
                total_bytes(cs) <= usize::MAX,
                progress.wf(),
                progress.total == total,
                progress.transferred == reported_progress(cs.take(i as int), total),
                reports@.len() == i,
                forall|j: int|
                    0 <= j < i ==> reports@[j] == reported_progress(cs.take(j + 1), total),
                content@ == concat_bytes(cs.take(i as int)),
                content@.len() == total_bytes(cs.take(i as int)),
            decreases chunks@.len() - i,
        {
            let chunk = &chunks[i];
            proof {
                assert(cs.take(i + 1).drop_last() =~= cs.take(i as int));
                assert(cs.take(i + 1).last() == cs[i as int]);
                lemma_take_total_bytes_bound(cs, i + 1);
            }
            let reported = progress.record(chunk.len() as u64);
            reports.push(reported);
            let mut j: usize = 0;
            while j < chunk.len()
                invariant
                    j <= chunk@.len(),
                    content@ == concat_bytes(cs.take(i as int)) + chunk@.take(j as int),
                    chunk@ == cs[i as int],
                    i < cs.len(),
                    cs.take(i + 1).drop_last() =~= cs.take(i as int),
                    cs.take(i + 1).last() == cs[i as int],
                    total_bytes(cs.take(i + 1)) <= usize::MAX,
                    content@.len() == total_bytes(cs.take(i as int)) + j,
                decreases chunk@.len() - j,
            {
                content.push(chunk[j]);
                proof {
                    assert(chunk@.take(j + 1) =~= chunk@.take(j as int).push(chunk@[j as int]));
                }
                j = j + 1;
            }
            proof {
                assert(chunk@.take(chunk@.len() as int) =~= chunk@);
                assert(content@ =~= concat_bytes(cs.take(i + 1)));
            }
            i = i + 1;
        }
        proof {
            assert(cs.take(cs.len() as int) =~= cs);
            lemma_final_progress_clamps(cs, total);
        }
        (reports, content)
    }
}

/// A prefix of a chunk sequence never holds more bytes than the whole.
pub proof fn lemma_take_total_bytes_bound(cs: Seq<Seq<u8>>, n: int)
    requires
        0 <= n <= cs.len(),
    ensures
        total_bytes(cs.take(n)) <= total_bytes(cs),
    decreases cs.len() - n,
{
    if n < cs.len() {
        lemma_take_total_bytes_bound(cs, n + 1);
        assert(cs.take(n + 1).drop_last() =~= cs.take(n));
        assert(total_bytes(cs.take(n)) <= total_bytes(cs.take(n + 1)));
    } else {
        assert(cs.take(n) =~= cs);
    }
}

} // verus!
