//! The segmented engine's decisions: where a task's metadata lives, what
//! the HEAD probe means, and how a fresh plan is built. The requests,
//! threads and files are driven by the process around the library, which
//! hands the header values in and carries the decisions out.

use vstd::prelude::*;
use vstd::string::StringExecFns;
use crate::hashing::{hash_url, id_of};
use crate::metadata::{DownloadMetadata, SegmentMetadata};
use crate::plan::{plan_segments, part_path_of, planned_start, planned_end};
use crate::progress::SegmentedProgressTracker;
use crate::text::{parse_u64, parseable_u64, dec_body, digits_val};

verus! {

/// Where a task's plan is persisted, relative to the working directory.
pub open spec fn meta_path_of(url: Seq<char>) -> Seq<char> {
    "downloads/meta/"@ + id_of(url) + ".meta.json"@
}

/// Builds the metadata path `downloads/meta/<task id>.meta.json` for a
/// URL. Retries and resumes reuse the same id, so they find the same
/// file.
pub fn meta_path_for(url: &str) -> (r: String)
    ensures
        r@ == meta_path_of(url@),
{
    let mut s = "downloads/meta/".to_owned();
    let id = hash_url(url);
    s.append(id.as_str());
    s.append(".meta.json");
    s
}

/// What a HEAD response said, reduced to the header values the engine
/// reads: whether `Accept-Ranges` was present, the raw `Content-Length`
/// text, and the optional validators.
pub struct HeadProbe {
    pub accept_ranges: bool,
    pub content_length: Option<String>,
    pub etag: Option<String>,
    pub last_modified: Option<String>,
}

/// What the probe means for the transfer: split into ranged segments,
/// fall back to one plain stream, or fail on an unreadable length.
pub enum ProbeDecision {
    Segmented(u64),
    Fallback,
    BadLength,
}

/// The meaning of a HEAD response: a resource is segmentable exactly
/// when `Accept-Ranges` is present and `Content-Length` is a numeric
/// size; a missing header falls back to a single stream, an unreadable
/// length is an error.
pub open spec fn probe_decision_of(accept_ranges: bool, content_length: Option<Seq<char>>) -> ProbeDecision {
    if !accept_ranges {
        ProbeDecision::Fallback
    } else {
        match content_length {
            None => ProbeDecision::Fallback,
            Some(cl) => if parseable_u64(cl) {
                ProbeDecision::Segmented(digits_val(dec_body(cl)) as u64)
            } else {
                ProbeDecision::BadLength
            },
        }
    }
}

impl HeadProbe {
    /// Reads the probe's headers and decides the transfer mode.
    pub fn decide(&self) -> (r: ProbeDecision)
        ensures
            r == probe_decision_of(
                self.accept_ranges,
                match self.content_length {
                    Some(cl) => Some(cl@),
                    None => None,
                },
            ),
    {
        if !self.accept_ranges {
            return ProbeDecision::Fallback;
        }
        match &self.content_length {
            None => ProbeDecision::Fallback,
            Some(cl) => match parse_u64(cl.as_str()) {
                Some(n) => ProbeDecision::Segmented(n),
                None => ProbeDecision::BadLength,
            },
        }
    }
}

/// Builds a fresh plan for a segmentable resource: the segment table
/// partitions `[0, total_size - 1]` and the validators are carried
/// along for `If-Range`.
pub fn build_metadata(
    url: &str,
    output_path: &str,
    total_size: u64,
    etag: Option<String>,
    last_modified: Option<String>,
    num_threads: usize,
) -> (m: DownloadMetadata)
    requires
        1 <= num_threads,
        num_threads <= total_size,
    ensures
        m.wf(),
        m.url@ == url@,
        m.output_path@ == output_path@,
        m.total_size == total_size,
        m.etag == etag,
        m.last_modified == last_modified,
        m.segments@.len() == num_threads,
        forall|i: int|
            0 <= i < num_threads ==> {
                &&& (#[trigger] m.segments@[i]).segment_id == i
                &&& m.segments@[i].start == planned_start(total_size, num_threads as int, i)
                &&& m.segments@[i].end == planned_end(total_size, num_threads as int, i)
                &&& m.segments@[i].downloaded == 0
                &&& m.segments@[i].part_path@ == part_path_of(output_path@, i)
            },
{
    let segments = plan_segments(total_size, num_threads, output_path);
    DownloadMetadata {
        url: url.to_owned(),
        output_path: output_path.to_owned(),
        total_size,
        etag,
        last_modified,
        segments,
    }
}

/// The tracker a run starts with when its caller supplied none: one
/// entry per planned segment, sized by the plan's even share.
pub fn tracker_for(meta: &DownloadMetadata) -> (t: SegmentedProgressTracker)
    requires
        meta.wf(),
    ensures
        t.segments@.len() == meta.segments@.len(),
        t.total_downloaded == 0,
        t.total_size == meta.total_size,
        forall|i: int|
            0 <= i < t.segments@.len() ==> #[trigger] t.segments@[i] == (
                0u64,
                (meta.total_size as int / meta.segments@.len() as int) as u64,
            ),
{
    let n: usize = meta.segments.len();
    let hint: u64 = meta.total_size / (n as u64);
    SegmentedProgressTracker::new(n, hint, meta.total_size)
}

} // verus!
