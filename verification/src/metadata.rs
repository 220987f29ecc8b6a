//! The persistent description of a task: one record per segment and one
//! plan per task, the resumable state that outlives the process. Reading
//! and writing the JSON document on disk is left to the process around
//! the library; the model here carries the invariants the engine needs.

use vstd::prelude::*;

verus! {

/// One segment of a task's plan: an inclusive byte range of the
/// resource, the local file its bytes accumulate in, and the last-known
/// count of bytes already there.
pub struct SegmentMetadata {
    pub segment_id: usize,
    pub start: u64,
    pub end: u64,
    pub downloaded: u64,
    pub part_path: String,
}

impl SegmentMetadata {
    /// A segment's range is inclusive on both ends and never empty.
    pub open spec fn wf(&self) -> bool {
        self.start <= self.end
    }

    /// The number of bytes the segment covers.
    pub open spec fn byte_len(&self) -> int {
        self.end - self.start + 1
    }

    /// Copies the record.
    pub fn duplicate(&self) -> (r: SegmentMetadata)
        ensures
            r.segment_id == self.segment_id,
            r.start == self.start,
            r.end == self.end,
            r.downloaded == self.downloaded,
            r.part_path@ == self.part_path@,
    {
        SegmentMetadata {
            segment_id: self.segment_id,
            start: self.start,
            end: self.end,
            downloaded: self.downloaded,
            part_path: self.part_path.clone(),
        }
    }
}

/// The segments are 0-indexed in order and partition
/// `[0, total_size - 1]` contiguously.
pub open spec fn segments_partition(segs: Seq<SegmentMetadata>, total_size: u64) -> bool {
    &&& segs.len() >= 1
    &&& forall|i: int| 0 <= i < segs.len() ==> (#[trigger] segs[i]).wf()
    &&& forall|i: int| 0 <= i < segs.len() ==> (#[trigger] segs[i]).segment_id == i
    &&& segs[0].start == 0
    &&& segs[segs.len() - 1].end == total_size - 1
    &&& forall|i: int|
        0 <= i < segs.len() - 1 ==> (#[trigger] segs[i + 1]).start == segs[i].end + 1
}

/// The bytes covered by the segments together.
pub open spec fn sum_byte_len(segs: Seq<SegmentMetadata>) -> int
    decreases segs.len(),
{
    if segs.len() == 0 {
        0
    } else {
        sum_byte_len(segs.drop_last()) + segs.last().byte_len()
    }
}

/// In a contiguous partition the first `k` segments cover exactly the
/// bytes up to the `k`-th segment's end.
proof fn lemma_prefix_sum(segs: Seq<SegmentMetadata>, total_size: u64, k: int)
    requires
        segments_partition(segs, total_size),
        1 <= k <= segs.len(),
    ensures
        sum_byte_len(segs.take(k)) == segs[k - 1].end + 1,
    decreases k,
{
    if k == 1 {
        assert(segs.take(1).drop_last() =~= Seq::<SegmentMetadata>::empty());
        assert(sum_byte_len(Seq::<SegmentMetadata>::empty()) == 0);
        assert(segs.take(1).last() == segs[0]);
        assert(sum_byte_len(segs.take(1)) == 0 + segs[0].byte_len());
        assert(segs[0].start == 0);
    } else {
        lemma_prefix_sum(segs, total_size, k - 1);
        assert(segs.take(k).drop_last() =~= segs.take(k - 1));
        assert(segs.take(k).last() == segs[k - 1]);
        assert(sum_byte_len(segs.take(k)) == sum_byte_len(segs.take(k - 1)) + segs[k
            - 1].byte_len());
        assert(segs[(k - 2) + 1].start == segs[k - 2].end + 1);
        assert(segs[k - 1].start == segs[k - 2].end + 1);
    }
}

/// A partition of `[0, total_size - 1]` covers `total_size` bytes in
/// all: the plan invariant that the sum of segment lengths equals the
/// resource size.
pub proof fn lemma_partition_total(segs: Seq<SegmentMetadata>, total_size: u64)
    requires
        segments_partition(segs, total_size),
    ensures
        sum_byte_len(segs) == total_size,
{
    lemma_prefix_sum(segs, total_size, segs.len() as int);
    assert(segs.take(segs.len() as int) =~= segs);
}

/// In a contiguous partition no two segments overlap: a byte of the
/// resource belongs to the range of at most one segment.
pub proof fn lemma_partition_disjoint(
    segs: Seq<SegmentMetadata>,
    total_size: u64,
    i: int,
    j: int,
)
    requires
        segments_partition(segs, total_size),
        0 <= i < j < segs.len(),
    ensures
        segs[i].end < segs[j].start,
    decreases j - i,
{
    assert(segs[(j - 1) + 1].start == segs[j - 1].end + 1);
    if i < j - 1 {
        lemma_partition_disjoint(segs, total_size, i, j - 1);
    }
}

/// The task's persistent plan: what to fetch, where the result goes, the
/// resource's size and validators, and the segment table.
pub struct DownloadMetadata {
    pub url: String,
    pub output_path: String,
    pub total_size: u64,
    pub etag: Option<String>,
    pub last_modified: Option<String>,
    pub segments: Vec<SegmentMetadata>,
}

impl DownloadMetadata {
    /// The plan invariant: a positive size partitioned by the segment
    /// table.
    pub open spec fn wf(&self) -> bool {
        &&& self.total_size >= 1
        &&& segments_partition(self.segments@, self.total_size)
    }

    /// Decides the plan invariant for a plan read back from disk: a
    /// loaded document that parses but does not partition its own size
    /// is no plan to resume from.
    pub fn check_wf(&self) -> (r: bool)
        ensures
            r == self.wf(),
    {
        if self.total_size < 1 {
            return false;
        }
        let n: usize = self.segments.len();
        if n < 1 {
            return false;
        }
        if self.segments[0].start != 0 {
            return false;
        }
        if self.segments[n - 1].end != self.total_size - 1 {
            return false;
        }
        let mut i: usize = 0;
        while i < n
            invariant
                i <= n,
                n == self.segments@.len(),
                forall|k: int| 0 <= k < i ==> (#[trigger] self.segments@[k]).wf(),
                forall|k: int| 0 <= k < i ==> (#[trigger] self.segments@[k]).segment_id == k,
                forall|k: int|
                    0 <= k < i - 1 ==> (#[trigger] self.segments@[k + 1]).start
                        == self.segments@[k].end + 1,
            decreases n - i,
        {
            let s = &self.segments[i];
            if s.start > s.end || s.segment_id != i {
                proof {
                    if s.start > s.end {
                        assert(!(self.segments@[i as int]).wf());
                    } else {
                        assert((self.segments@[i as int]).segment_id != i as int);
                    }
                    assert(!segments_partition(self.segments@, self.total_size));
                }
                return false;
            }
            if i > 0 {
                let prev_end: u64 = self.segments[i - 1].end;
                if prev_end == u64::MAX || s.start != prev_end + 1 {
                    proof {
                        let prev = i as int - 1;
                        if segments_partition(self.segments@, self.total_size) {
                            assert((self.segments@[prev + 1]).start == self.segments@[prev].end
                                + 1);
                            assert(false);
                        }
                    }
                    return false;
                }
            }
            i = i + 1;
        }
        true
    }

    /// Relies on `std::path::Path::exists`: whether the path names
    /// something on disk at the moment of the call. Nothing can be
    /// promised of the filesystem's state.
    #[verifier::external_body]
    pub fn exists_on_disk(path: &str) -> bool {
        std::path::Path::new(path).exists()
    }
}

} // verus!
