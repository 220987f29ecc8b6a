//! The task controller: the table of live tasks and the pause, resume,
//! cancel, retry and remove state machine. The table here is the
//! controller's sequential state; the process around the library
//! serializes access to it, spawns the engine for each added task, and
//! carries out the joins and file deletions the transitions call for.

use vstd::prelude::*;
use vstd::string::StringExecFns;
use crate::config::Config;
use crate::engine::{meta_path_for, meta_path_of};
use crate::hashing::{hash_url, id_of};
use crate::progress::{DownloadProgress, SegmentedProgressTracker};
use crate::status::{DownloadStatus, run_step, status_label};

verus! {

/// One live task: its identifier, endpoints, paths, the pause signal
/// shared with its workers, its status, and its progress tracker.
pub struct DownloadTask {
    pub id: String,
    pub url: String,
    pub output_path: String,
    pub meta_path: String,
    pub pause_flag: bool,
    pub status: DownloadStatus,
    pub progress: SegmentedProgressTracker,
}

impl DownloadTask {
    /// A task's identifier and metadata path are derived from its URL.
    pub open spec fn wf(&self) -> bool {
        &&& self.id@ == id_of(self.url@)
        &&& self.meta_path@ == meta_path_of(self.url@)
    }
}

/// Some task in the table carries this identifier.
pub open spec fn has_id(tasks: Seq<DownloadTask>, id: Seq<char>) -> bool {
    exists|i: int| 0 <= i < tasks.len() && (#[trigger] tasks[i]).id@ == id
}

/// A newly added task: fresh pause flag, `Idle` status, and an empty
/// tracker sized for `n` segments.
pub open spec fn is_fresh_task(t: DownloadTask, url: Seq<char>, output: Seq<char>, n: int) -> bool {
    &&& t.id@ == id_of(url)
    &&& t.url@ == url
    &&& t.output_path@ == output
    &&& t.meta_path@ == meta_path_of(url)
    &&& t.pause_flag == false
    &&& t.status is Idle
    &&& t.progress.segments@.len() == n
    &&& forall|i: int| 0 <= i < n ==> #[trigger] t.progress.segments@[i] == (0u64, 0u64)
    &&& t.progress.total_downloaded == 0
    &&& t.progress.total_size == 0
}

/// Everything about a task except its pause flag and status: the fields
/// the control transitions leave untouched.
pub open spec fn same_task_core(a: DownloadTask, b: DownloadTask) -> bool {
    &&& a.id == b.id
    &&& a.url == b.url
    &&& a.output_path == b.output_path
    &&& a.meta_path == b.meta_path
    &&& a.progress == b.progress
}

/// The task controller. It owns the task table; each operation looks a
/// task up by identifier and applies one state transition.
pub struct DownloadManager {
    pub tasks: Vec<DownloadTask>,
    pub config: Config,
}

impl DownloadManager {
    /// Identifiers are unique in the table, every task is well formed,
    /// and the configuration plans at least one segment per task.
    pub open spec fn wf(&self) -> bool {
        &&& forall|i: int| 0 <= i < self.tasks@.len() ==> (#[trigger] self.tasks@[i]).wf()
        &&& forall|i: int, j: int|
            0 <= i < j < self.tasks@.len() ==> (#[trigger] self.tasks@[i]).id@ != (
            #[trigger] self.tasks@[j]).id@
        &&& self.config.wf()
    }

    pub fn new(config: Config) -> (m: Self)
        requires
            config.wf(),
        ensures
            m.wf(),
            m.tasks@.len() == 0,
            m.config == config,
    {
        DownloadManager { tasks: Vec::new(), config }
    }

    /// Looks the identifier up: the first (and, in a well-formed table,
    /// only) index carrying it.
    fn find(&self, id: &str) -> (r: Option<usize>)
        ensures
            match r {
                Some(k) => {
                    &&& k < self.tasks@.len()
                    &&& self.tasks@[k as int].id@ == id@
                },
                None => !has_id(self.tasks@, id@),
            },
    {
        let id_owned = id.to_owned();
        let mut k: usize = 0;
        while k < self.tasks.len()
            invariant
                k <= self.tasks@.len(),
                id_owned@ == id@,
                forall|j: int| 0 <= j < k ==> (#[trigger] self.tasks@[j]).id@ != id@,
            decreases self.tasks@.len() - k,
        {
            if self.tasks[k].id == id_owned {
                return Some(k);
            }
            k = k + 1;
        }
        None
    }

    /// Lists every task as `(id, url, status text)`.
    pub fn list_downloads(&self) -> (r: Vec<(String, String, String)>)
        ensures
            r@.len() == self.tasks@.len(),
            forall|i: int|
                0 <= i < self.tasks@.len() ==> {
                    &&& (#[trigger] r@[i]).0@ == self.tasks@[i].id@
                    &&& r@[i].1@ == self.tasks@[i].url@
                    &&& r@[i].2@ == status_label(self.tasks@[i].status)
                },
    {
        let mut r: Vec<(String, String, String)> = Vec::new();
        let mut i: usize = 0;
        while i < self.tasks.len()
            invariant
                i <= self.tasks@.len(),
                r@.len() == i,
                forall|j: int|
                    0 <= j < i ==> {
                        &&& (#[trigger] r@[j]).0@ == self.tasks@[j].id@
                        &&& r@[j].1@ == self.tasks@[j].url@
                        &&& r@[j].2@ == status_label(self.tasks@[j].status)
                    },
            decreases self.tasks@.len() - i,
        {
            let t = &self.tasks[i];
            r.push((t.id.clone(), t.url.clone(), t.status.label()));
            i = i + 1;
        }
        r
    }

    /// A copy of a task's progress, `None` for an unknown identifier.
    pub fn get_progress(&self, id: &str) -> (r: Option<DownloadProgress>)
        ensures
            r is Some <==> has_id(self.tasks@, id@),
            match r {
                None => true,
                Some(p) => exists|k: int|
                    {
                        &&& 0 <= k < self.tasks@.len()
                        &&& (#[trigger] self.tasks@[k]).id@ == id@
                        &&& p.total_downloaded == self.tasks@[k].progress.total_downloaded
                        &&& p.total_size == self.tasks@[k].progress.total_size
                        &&& p.per_segment@.len() == self.tasks@[k].progress.segments@.len()
                        &&& forall|i: int|
                            0 <= i < p.per_segment@.len() ==> #[trigger] p.per_segment@[i] == (
                                i as usize,
                                self.tasks@[k].progress.segments@[i].0,
                                self.tasks@[k].progress.segments@[i].1,
                            )
                    },
            },
    {
        match self.find(id) {
            None => None,
            Some(k) => Some(self.tasks[k].progress.snapshot()),
        }
    }

    /// Adds a download task: computes the identifier from the URL,
    /// installs a fresh record (`Idle`, unpaused, empty tracker), and
    /// replaces any existing record with the same identifier. The caller
    /// then starts one engine run for the task.
    pub fn add_download(&mut self, url: String, output_path: String) -> (id: String)
        requires
            old(self).wf(),
        ensures
            final(self).wf(),
            id@ == id_of(url@),
            final(self).config == old(self).config,
            has_id(old(self).tasks@, id_of(url@)) ==> {
                &&& final(self).tasks@.len() == old(self).tasks@.len()
                &&& forall|j: int|
                    0 <= j < old(self).tasks@.len() ==> if old(self).tasks@[j].id@ == id_of(url@) {
                        is_fresh_task(
                            #[trigger] final(self).tasks@[j],
                            url@,
                            output_path@,
                            old(self).config.num_threads as int,
                        )
                    } else {
                        final(self).tasks@[j] == old(self).tasks@[j]
                    }
            },
            !has_id(old(self).tasks@, id_of(url@)) ==> {
                &&& final(self).tasks@.len() == old(self).tasks@.len() + 1
                &&& forall|j: int|
                    0 <= j < old(self).tasks@.len() ==> #[trigger] final(self).tasks@[j] == old(
                        self,
                    ).tasks@[j]
                &&& is_fresh_task(
                    final(self).tasks@[old(self).tasks@.len() as int],
                    url@,
                    output_path@,
                    old(self).config.num_threads as int,
                )
            },
    {
        let id = hash_url(url.as_str());
        let meta_path = meta_path_for(url.as_str());
        let progress = SegmentedProgressTracker::new(self.config.num_threads, 0, 0);
        let t = DownloadTask {
            id: id.clone(),
            url,
            output_path,
            meta_path,
            pause_flag: false,
            status: DownloadStatus::Idle,
            progress,
        };
        let ghost t_snap = t;
        match self.find(id.as_str()) {
            Some(k) => {
                let _old_task = self.tasks.remove(k);
                self.tasks.insert(k, t);
                proof {
                    assert(self.tasks@ =~= old(self).tasks@.update(k as int, t_snap));
                }
            },
            None => {
                self.tasks.push(t);
            },
        }
        id
    }

    /// Signals a pause: sets the task's shared pause flag — the workers
    /// poll it between buffer reads — and reports the task `Paused`.
    /// Returns false for an unknown identifier.
    pub fn pause(&mut self, id: &str) -> (r: bool)
        requires
            old(self).wf(),
        ensures
            final(self).wf(),
            r <==> has_id(old(self).tasks@, id@),
            final(self).config == old(self).config,
            final(self).tasks@.len() == old(self).tasks@.len(),
            forall|j: int|
                0 <= j < old(self).tasks@.len() ==> if old(self).tasks@[j].id@ == id@ {
                    &&& same_task_core(#[trigger] final(self).tasks@[j], old(self).tasks@[j])
                    &&& final(self).tasks@[j].pause_flag == true
                    &&& final(self).tasks@[j].status is Paused
                } else {
                    final(self).tasks@[j] == old(self).tasks@[j]
                },
    {
        match self.find(id) {
            None => false,
            Some(k) => {
                self.tasks[k].pause_flag = true;
                self.tasks[k].status = DownloadStatus::Paused;
                true
            },
        }
    }

    /// Cancels a task: signals the pause flag so the workers drain, and
    /// reports the task `Canceled`. The caller joins the task's worker
    /// threads and deletes its metadata file and part files. Returns
    /// false for an unknown identifier.
    pub fn cancel(&mut self, id: &str) -> (r: bool)
        requires
            old(self).wf(),
        ensures
            final(self).wf(),
            r <==> has_id(old(self).tasks@, id@),
            final(self).config == old(self).config,
            final(self).tasks@.len() == old(self).tasks@.len(),
            forall|j: int|
                0 <= j < old(self).tasks@.len() ==> if old(self).tasks@[j].id@ == id@ {
                    &&& same_task_core(#[trigger] final(self).tasks@[j], old(self).tasks@[j])
                    &&& final(self).tasks@[j].pause_flag == true
                    &&& final(self).tasks@[j].status is Canceled
                } else {
                    final(self).tasks@[j] == old(self).tasks@[j]
                },
    {
        match self.find(id) {
            None => false,
            Some(k) => {
                self.tasks[k].pause_flag = true;
                self.tasks[k].status = DownloadStatus::Canceled;
                true
            },
        }
    }

    /// The engine's first status write in a run: `Idle` to
    /// `Downloading`. The step follows the run order.
    pub fn mark_downloading(&mut self, id: &str) -> (r: bool)
        requires
            old(self).wf(),
        ensures
            final(self).wf(),
            r <==> exists|i: int|
                0 <= i < old(self).tasks@.len() && (#[trigger] old(self).tasks@[i]).id@ == id@ && old(
                    self,
                ).tasks@[i].status is Idle,
            final(self).config == old(self).config,
            final(self).tasks@.len() == old(self).tasks@.len(),
            forall|j: int|
                0 <= j < old(self).tasks@.len() ==> if old(self).tasks@[j].id@ == id@ && old(
                    self,
                ).tasks@[j].status is Idle {
                    &&& same_task_core(#[trigger] final(self).tasks@[j], old(self).tasks@[j])
                    &&& final(self).tasks@[j].pause_flag == old(self).tasks@[j].pause_flag
                    &&& final(self).tasks@[j].status is Downloading
                    &&& run_step(old(self).tasks@[j].status, final(self).tasks@[j].status)
                } else {
                    final(self).tasks@[j] == old(self).tasks@[j]
                },
    {
        match self.find(id) {
            None => false,
            Some(k) => {
                match self.tasks[k].status {
                    DownloadStatus::Idle => {
                        self.tasks[k].status = DownloadStatus::Downloading;
                        true
                    },
                    _ => false,
                }
            },
        }
    }

    /// The engine's final status write in a run: `Downloading` to
    /// `Completed` on success or `Failed` with the reason otherwise. The
    /// step follows the run order.
    pub fn mark_finished(&mut self, id: &str, failure: Option<String>) -> (r: bool)
        requires
            old(self).wf(),
        ensures
            final(self).wf(),
            r <==> exists|i: int|
                0 <= i < old(self).tasks@.len() && (#[trigger] old(self).tasks@[i]).id@ == id@ && old(
                    self,
                ).tasks@[i].status is Downloading,
            final(self).config == old(self).config,
            final(self).tasks@.len() == old(self).tasks@.len(),
            forall|j: int|
                0 <= j < old(self).tasks@.len() ==> if old(self).tasks@[j].id@ == id@ && old(
                    self,
                ).tasks@[j].status is Downloading {
                    &&& same_task_core(#[trigger] final(self).tasks@[j], old(self).tasks@[j])
                    &&& final(self).tasks@[j].pause_flag == old(self).tasks@[j].pause_flag
                    &&& (match failure {
                        None => final(self).tasks@[j].status is Completed,
                        Some(reason) => final(self).tasks@[j].status matches DownloadStatus::Failed(
                            r2,
                        ) && r2@ == reason@,
                    })
                    &&& run_step(old(self).tasks@[j].status, final(self).tasks@[j].status)
                } else {
                    final(self).tasks@[j] == old(self).tasks@[j]
                },
    {
        match self.find(id) {
            None => false,
            Some(k) => {
                match self.tasks[k].status {
                    DownloadStatus::Downloading => {
                        match failure {
                            None => {
                                self.tasks[k].status = DownloadStatus::Completed;
                            },
                            Some(reason) => {
                                self.tasks[k].status = DownloadStatus::Failed(reason);
                            },
                        }
                        true
                    },
                    _ => false,
                }
            },
        }
    }

    /// Resumes a paused task: captures its URL and output path and
    /// re-adds it, which re-enters the engine; the run then discovers
    /// the persisted plan. The identifier is unchanged because it is a
    /// function of the URL. Returns false if the identifier is unknown
    /// or the task is not paused.
    pub fn resume(&mut self, id: &str) -> (r: bool)
        requires
            old(self).wf(),
        ensures
            final(self).wf(),
            r <==> exists|i: int|
                0 <= i < old(self).tasks@.len() && (#[trigger] old(self).tasks@[i]).id@ == id@ && old(
                    self,
                ).tasks@[i].status is Paused,
            final(self).config == old(self).config,
            final(self).tasks@.len() == old(self).tasks@.len(),
            forall|j: int|
                0 <= j < old(self).tasks@.len() ==> if old(self).tasks@[j].id@ == id@ && old(
                    self,
                ).tasks@[j].status is Paused {
                    is_fresh_task(
                        #[trigger] final(self).tasks@[j],
                        old(self).tasks@[j].url@,
                        old(self).tasks@[j].output_path@,
                        old(self).config.num_threads as int,
                    )
                } else {
                    final(self).tasks@[j] == old(self).tasks@[j]
                },
    {
        let k = match self.find(id) {
            None => {
                return false;
            },
            Some(k) => k,
        };
        match self.tasks[k].status {
            DownloadStatus::Paused => {},
            _ => {
                return false;
            },
        }
        let url = self.tasks[k].url.clone();
        let output_path = self.tasks[k].output_path.clone();
        proof {
            assert(id_of(url@) == old(self).tasks@[k as int].id@);
        }
        self.add_download(url, output_path);
        true
    }

    /// Retries a failed or canceled task: captures its URL and output
    /// path and re-adds it, starting a fresh engine run that picks up
    /// whatever metadata remains. Returns false if the identifier is
    /// unknown or the task is in any other state.
    pub fn retry(&mut self, id: &str) -> (r: bool)
        requires
            old(self).wf(),
        ensures
            final(self).wf(),
            r <==> exists|i: int|
                0 <= i < old(self).tasks@.len() && (#[trigger] old(self).tasks@[i]).id@ == id@ && (old(
                    self,
                ).tasks@[i].status is Failed || old(self).tasks@[i].status is Canceled),
            final(self).config == old(self).config,
            final(self).tasks@.len() == old(self).tasks@.len(),
            forall|j: int|
                0 <= j < old(self).tasks@.len() ==> if old(self).tasks@[j].id@ == id@ && (old(
                    self,
                ).tasks@[j].status is Failed || old(self).tasks@[j].status is Canceled) {
                    is_fresh_task(
                        #[trigger] final(self).tasks@[j],
                        old(self).tasks@[j].url@,
                        old(self).tasks@[j].output_path@,
                        old(self).config.num_threads as int,
                    )
                } else {
                    final(self).tasks@[j] == old(self).tasks@[j]
                },
    {
        let k = match self.find(id) {
            None => {
                return false;
            },
            Some(k) => k,
        };
        match self.tasks[k].status {
            DownloadStatus::Failed(_) => {},
            DownloadStatus::Canceled => {},
            _ => {
                return false;
            },
        }
        let url = self.tasks[k].url.clone();
        let output_path = self.tasks[k].output_path.clone();
        proof {
            assert(id_of(url@) == old(self).tasks@[k as int].id@);
        }
        self.add_download(url, output_path);
        true
    }

    /// Removes a task from the table. The caller cancels the task first
    /// (joining its workers and deleting its files) exactly as `cancel`
    /// does. Returns false for an unknown identifier.
    pub fn remove(&mut self, id: &str) -> (r: bool)
        requires
            old(self).wf(),
        ensures
            final(self).wf(),
            r <==> has_id(old(self).tasks@, id@),
            final(self).config == old(self).config,
            !r ==> final(self).tasks@ == old(self).tasks@,
            r ==> exists|k: int|
                {
                    &&& 0 <= k < old(self).tasks@.len()
                    &&& (#[trigger] old(self).tasks@[k]).id@ == id@
                    &&& final(self).tasks@ == old(self).tasks@.remove(k)
                },
            !has_id(final(self).tasks@, id@),
    {
        match self.find(id) {
            None => false,
            Some(k) => {
                let _removed = self.tasks.remove(k);
                proof {
                    assert forall|i: int|
                        0 <= i < self.tasks@.len() implies (#[trigger] self.tasks@[i]).id@
                        != id@ by {
                        if i < k {
                            assert(self.tasks@[i] == old(self).tasks@[i]);
                        } else {
                            assert(self.tasks@[i] == old(self).tasks@[i + 1]);
                        }
                    }
                }
                true
            },
        }
    }
}

} // verus!
