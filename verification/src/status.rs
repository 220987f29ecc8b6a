//! Task status: the per-task state reported by the controller, its text
//! rendering, and the order a status moves through during one engine run.

use vstd::prelude::*;
use vstd::string::StringExecFns;

verus! {

/// The lifecycle state of a download task.
pub enum DownloadStatus {
    Idle,
    Downloading,
    Paused,
    Completed,
    Canceled,
    Retrying,
    Failed(String),
}

/// The text for each status, as the controller reports it.
pub open spec fn status_label(s: DownloadStatus) -> Seq<char> {
    match s {
        DownloadStatus::Idle => "Idle"@,
        DownloadStatus::Downloading => "Downloading"@,
        DownloadStatus::Paused => "Paused"@,
        DownloadStatus::Completed => "Completed"@,
        DownloadStatus::Canceled => "Canceled"@,
        DownloadStatus::Retrying => "Retrying"@,
        DownloadStatus::Failed(reason) => "Failed ("@ + reason@ + ")"@,
    }
}

impl DownloadStatus {
    /// Renders the status as text; a failure names its reason in
    /// parentheses.
    pub fn label(&self) -> (r: String)
        ensures
            r@ == status_label(*self),
    {
        match self {
            DownloadStatus::Idle => "Idle".to_owned(),
            DownloadStatus::Downloading => "Downloading".to_owned(),
            DownloadStatus::Paused => "Paused".to_owned(),
            DownloadStatus::Completed => "Completed".to_owned(),
            DownloadStatus::Canceled => "Canceled".to_owned(),
            DownloadStatus::Retrying => "Retrying".to_owned(),
            DownloadStatus::Failed(reason) => {
                let mut s = "Failed (".to_owned();
                s.append(reason.as_str());
                s.append(")");
                s
            },
        }
    }

}

/// The status changes a single engine invocation makes: a run starts
/// `Idle`, moves to `Downloading`, and ends in exactly one of
/// `Completed`, `Failed`, `Paused` or `Canceled`.
pub open spec fn run_step(from: DownloadStatus, to: DownloadStatus) -> bool {
    ||| (from is Idle && to is Downloading)
    ||| (from is Downloading && (to is Completed || to is Failed || to is Paused
        || to is Canceled))
}

/// How far along its run a status is.
pub open spec fn run_rank(s: DownloadStatus) -> int {
    if s is Idle {
        0
    } else if s is Downloading {
        1
    } else {
        2
    }
}

/// Within a single engine invocation, a task's status passes through
/// `Idle`, then `Downloading`, then a terminal state, and never moves
/// back: every step strictly raises the rank, so no step can be undone.
pub proof fn lemma_run_status_monotonic(a: DownloadStatus, b: DownloadStatus)
    requires
        run_step(a, b),
    ensures
        run_rank(b) > run_rank(a),
        !run_step(b, a),
{
}

/// Across any chain of run steps the rank still strictly rises: a status
/// reached in a run never recurs later in the same run.
pub proof fn lemma_run_history_monotonic(h: Seq<DownloadStatus>, i: int, j: int)
    requires
        forall|k: int| 0 <= k < h.len() - 1 ==> run_step(#[trigger] h[k], h[k + 1]),
        0 <= i < j < h.len(),
    ensures
        run_rank(h[i]) < run_rank(h[j]),
    decreases j - i,
{
    if j == i + 1 {
        lemma_run_status_monotonic(h[i], h[j]);
    } else {
        lemma_run_history_monotonic(h, i, j - 1);
        lemma_run_status_monotonic(h[j - 1], h[j]);
    }
}

} // verus!
