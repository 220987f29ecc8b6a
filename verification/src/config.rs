//! Runtime options recognized by the downloader.

use vstd::prelude::*;

verus! {

/// The configuration record that callers hand to the engine and the
/// controller: per-request timeout, per-segment retry budget, number of
/// segments per task, and a prefix applied by callers to relative outputs.
pub struct Config {
    pub timeout_secs: u64,
    pub max_retries: u8,
    pub num_threads: usize,
    pub default_output_path: String,
}

impl Config {
    /// A configuration is usable by the engine only with at least one
    /// segment per task.
    pub open spec fn wf(&self) -> bool {
        self.num_threads >= 1
    }
}

impl Default for Config {
    /// The defaults used when no configuration file is found or it fails
    /// to parse.
    fn default() -> (c: Config)
        ensures
            c.timeout_secs == 15,
            c.max_retries == 3,
            c.num_threads == 4,
            c.default_output_path@ == Seq::<char>::empty(),
            c.wf(),
    {
        Config {
            timeout_secs: 15,
            max_retries: 3,
            num_threads: 4,
            default_output_path: String::new(),
        }
    }
}

impl Clone for Config {
    fn clone(&self) -> (c: Config)
        ensures
            c.timeout_secs == self.timeout_secs,
            c.max_retries == self.max_retries,
            c.num_threads == self.num_threads,
            c.default_output_path@ == self.default_output_path@,
    {
        Config {
            timeout_secs: self.timeout_secs,
            max_retries: self.max_retries,
            num_threads: self.num_threads,
            default_output_path: self.default_output_path.clone(),
        }
    }
}

} // verus!
