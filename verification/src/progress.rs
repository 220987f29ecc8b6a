//! Progress accounting, shared by the workers of one task. The text
//! display of a percentage is left to the process around the library.

use vstd::prelude::*;

verus! {

/// Used by the single-stream fallback downloader.
pub struct SimpleProgressTracker {
    pub total_size: u64,
    pub downloaded: u64,
}

impl SimpleProgressTracker {
    pub fn new(total_size: u64) -> (t: Self)
        ensures
            t.total_size == total_size,
            t.downloaded == 0,
    {
        Self { total_size, downloaded: 0 }
    }

    /// Accounts `bytes` more as downloaded.
    pub fn update(&mut self, bytes: u64)
        requires
            old(self).downloaded + bytes <= u64::MAX,
        ensures
            final(self).downloaded == old(self).downloaded + bytes,
            final(self).total_size == old(self).total_size,
    {
        self.downloaded = self.downloaded + bytes;
    }
}

/// A copy of the tracker's state at one moment: the aggregate counts and
/// one `(segment_id, downloaded, total)` triple per segment.
pub struct DownloadProgress {
    pub total_downloaded: u64,
    pub total_size: u64,
    pub per_segment: Vec<(usize, u64, u64)>,
}

/// Used by the segmented downloader: per-segment and aggregate byte
/// counts. Segment ids index `segments`; each entry is
/// `(downloaded, total)`.
pub struct SegmentedProgressTracker {
    pub segments: Vec<(u64, u64)>,
    pub total_downloaded: u64,
    pub total_size: u64,
}

impl SegmentedProgressTracker {
    pub fn new(num_segments: usize, segment_size: u64, total_size: u64) -> (t: Self)
        ensures
            t.segments@.len() == num_segments,
            forall|i: int|
                0 <= i < num_segments ==> #[trigger] t.segments@[i] == (0u64, segment_size),
            t.total_downloaded == 0,
            t.total_size == total_size,
    {
        let mut segments: Vec<(u64, u64)> = Vec::new();
        let mut i: usize = 0;
        while i < num_segments
            invariant
                i <= num_segments,
                segments@.len() == i,
                forall|k: int|
                    0 <= k < i ==> #[trigger] segments@[k] == (0u64, segment_size),
            decreases num_segments - i,
        {
            segments.push((0, segment_size));
            i = i + 1;
        }
        Self { segments, total_downloaded: 0, total_size }
    }

    /// Accounts `bytes` more against segment `segment_id` and against the
    /// aggregate; an unknown segment id still counts toward the
    /// aggregate.
    pub fn update(&mut self, segment_id: usize, bytes: u64)
        requires
            old(self).total_downloaded + bytes <= u64::MAX,
            segment_id < old(self).segments@.len() ==> old(self).segments@[segment_id as int].0
                + bytes <= u64::MAX,
        ensures
            final(self).total_downloaded == old(self).total_downloaded + bytes,
            final(self).total_size == old(self).total_size,
            segment_id < old(self).segments@.len() ==> final(self).segments@ == old(
                self,
            ).segments@.update(
                segment_id as int,
                (
                    (old(self).segments@[segment_id as int].0 + bytes) as u64,
                    old(self).segments@[segment_id as int].1,
                ),
            ),
            segment_id >= old(self).segments@.len() ==> final(self).segments@ == old(
                self,
            ).segments@,
    {
        if segment_id < self.segments.len() {
            let pair: (u64, u64) = self.segments[segment_id];
            self.segments.set(segment_id, (pair.0 + bytes, pair.1));
        }
        self.total_downloaded = self.total_downloaded + bytes;
    }

    /// A consistent copy of the tracker's state.
    pub fn snapshot(&self) -> (p: DownloadProgress)
        ensures
            p.total_downloaded == self.total_downloaded,
            p.total_size == self.total_size,
            p.per_segment@.len() == self.segments@.len(),
            forall|i: int|
                0 <= i < self.segments@.len() ==> #[trigger] p.per_segment@[i] == (
                    i as usize,
                    self.segments@[i].0,
                    self.segments@[i].1,
                ),
    {
        let mut per_segment: Vec<(usize, u64, u64)> = Vec::new();
        let mut i: usize = 0;
        while i < self.segments.len()
            invariant
                i <= self.segments@.len(),
                per_segment@.len() == i,
                forall|k: int|
                    0 <= k < i ==> #[trigger] per_segment@[k] == (
                        k as usize,
                        self.segments@[k].0,
                        self.segments@[k].1,
                    ),
            decreases self.segments@.len() - i,
        {
            let pair: (u64, u64) = self.segments[i];
            per_segment.push((i, pair.0, pair.1));
            i = i + 1;
        }
        DownloadProgress {
            total_downloaded: self.total_downloaded,
            total_size: self.total_size,
            per_segment,
        }
    }
}

} // verus!
