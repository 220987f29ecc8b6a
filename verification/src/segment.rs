//! One segment worker's decisions: when a segment is already complete,
//! what request to send, which responses to accept, what to do between
//! buffer reads, and when the retry budget is spent. The network and
//! file calls themselves are driven by the process around the library.

use vstd::prelude::*;
use vstd::string::StringExecFns;
use crate::config::Config;
use crate::metadata::SegmentMetadata;
use crate::text::{dec_of, u64_to_string};

verus! {

/// The fixed User-Agent value sent with every request.
pub fn user_agent() -> (r: &'static str)
    ensures
        r@ == "OpenDownloadManager/0.1"@,
{
    "OpenDownloadManager/0.1"
}

/// The `Range` header value asking for the inclusive span
/// `resume_start-end`.
pub open spec fn range_header_of(resume_start: int, end: int) -> Seq<char> {
    "bytes="@ + dec_of(resume_start as nat) + "-"@ + dec_of(end as nat)
}

/// Builds the `Range` header value `bytes=<resume_start>-<end>`.
pub fn range_header(resume_start: u64, end: u64) -> (r: String)
    ensures
        r@ == range_header_of(resume_start as int, end as int),
{
    let mut s = "bytes=".to_owned();
    let a = u64_to_string(resume_start);
    s.append(a.as_str());
    s.append("-");
    let b = u64_to_string(end);
    s.append(b.as_str());
    s
}

/// The request one attempt sends: where to resume, the inclusive end,
/// the ready `Range` header value, and the `If-Range` validator when one
/// is known.
pub struct SegmentRequest {
    pub resume_start: u64,
    pub end: u64,
    pub range_header: String,
    pub if_range: Option<String>,
}

/// A response is accepted exactly when its status is a 2xx success;
/// `206 Partial Content` is the usual case.
pub fn accept_status(status: u16) -> (r: bool)
    ensures
        r <==> (200 <= status && status <= 299),
{
    200 <= status && status <= 299
}

/// What a worker does after one HTTP exchange: stream an accepted body,
/// try again on a rejected one while budget remains, or give up.
pub enum NextMove {
    Stream,
    RetryAgain,
    GiveUp,
}

/// Decides the move after attempt `attempt` (1-indexed) of
/// `max_retries`: an accepted response is streamed; a rejected one is
/// retried until the budget is spent.
pub fn next_move(attempt: u8, max_retries: u8, accepted: bool) -> (r: NextMove)
    requires
        1 <= attempt <= max_retries,
    ensures
        accepted ==> r is Stream,
        !accepted && attempt < max_retries ==> r is RetryAgain,
        !accepted && attempt == max_retries ==> r is GiveUp,
{
    if accepted {
        NextMove::Stream
    } else if attempt < max_retries {
        NextMove::RetryAgain
    } else {
        NextMove::GiveUp
    }
}

/// What a worker does with one buffer read: a set pause flag stops the
/// attempt before anything else, an empty read finishes it, and
/// otherwise the buffer is appended and counted.
pub enum BufferStep {
    Stop,
    Finish,
    Write,
}

/// Decides the step for one buffer: the pause flag is consulted before
/// every read, so a pause is observed within one buffer's worth of work.
pub fn buffer_step(paused: bool, n: usize) -> (r: BufferStep)
    ensures
        paused ==> r is Stop,
        !paused && n == 0 ==> r is Finish,
        !paused && n > 0 ==> r is Write,
{
    if paused {
        BufferStep::Stop
    } else if n == 0 {
        BufferStep::Finish
    } else {
        BufferStep::Write
    }
}

/// The error text reported when a segment spends its whole retry
/// budget.
pub open spec fn exhausted_message_of(segment_id: int, max_retries: int) -> Seq<char> {
    "Segment "@ + dec_of(segment_id as nat) + " failed after "@ + dec_of(max_retries as nat)
        + " attempts"@
}

/// Builds the report for a segment whose attempts are all spent.
pub fn exhausted_message(segment_id: usize, max_retries: u8) -> (r: String)
    ensures
        r@ == exhausted_message_of(segment_id as int, max_retries as int),
{
    let mut s = "Segment ".to_owned();
    let a = u64_to_string(segment_id as u64);
    s.append(a.as_str());
    s.append(" failed after ");
    let b = u64_to_string(max_retries as u64);
    s.append(b.as_str());
    s.append(" attempts");
    s
}

/// One segment worker: the URL, the segment's plan record, the validator
/// to send with `If-Range`, and the retry and timeout configuration.
pub struct DownloadSegment {
    pub url: String,
    pub meta: SegmentMetadata,
    pub etag: Option<String>,
    pub config: Config,
}

impl DownloadSegment {
    pub fn new(url: String, meta: SegmentMetadata, config: &Config, etag: Option<String>) -> (s:
        Self)
        ensures
            s.url@ == url@,
            s.meta == meta,
            s.etag == etag,
            s.config.timeout_secs == config.timeout_secs,
            s.config.max_retries == config.max_retries,
            s.config.num_threads == config.num_threads,
    {
        DownloadSegment { url, meta, etag, config: config.clone() }
    }

    /// How many bytes the segment still needs, given how many its part
    /// file already holds; `None` when the part file is already
    /// complete.
    pub fn plan_request(&self, existing: u64) -> (r: Option<SegmentRequest>)
        requires
            self.meta.wf(),
        ensures
            r is None <==> existing >= self.meta.byte_len(),
            match r {
                None => true,
                Some(req) => {
                    &&& req.resume_start == self.meta.start + existing
                    &&& req.end == self.meta.end
                    &&& req.range_header@ == range_header_of(
                        self.meta.start + existing,
                        self.meta.end as int,
                    )
                    &&& match (req.if_range, self.etag) {
                        (Some(v), Some(e)) => v@ == e@,
                        (None, None) => true,
                        _ => false,
                    }
                },
            },
    {
        let span: u64 = self.meta.end - self.meta.start;
        if existing > span {
            return None;
        }
        let resume_start: u64 = self.meta.start + existing;
        let header = range_header(resume_start, self.meta.end);
        let if_range: Option<String> = match &self.etag {
            Some(e) => Some(e.clone()),
            None => None,
        };
        Some(
            SegmentRequest {
                resume_start,
                end: self.meta.end,
                range_header: header,
                if_range,
            },
        )
    }
}

} // verus!
