//! A library for mirroring git repositories from an upstream hosting
//! provider to per-project destinations.
//!
//! The core is a set of verified state machines: a per-repository job
//! pipeline (probe, clone-or-update, push, optional cleanup), a run-level
//! flow (directory setup, locking, enumeration, reporting), and paginated
//! provider enumeration. External work — child processes, HTTP, the
//! filesystem — is performed by a driver that carries out the actions the
//! machines request and feeds the results back as events.

pub mod engine;
pub mod error;
pub mod flow;
pub mod git;
pub mod job;
pub mod json;
pub mod layout;
pub mod numfmt;
pub mod provider;
pub mod report;
pub mod yaml;

use vstd::prelude::*;

verus! {

/// Everything one run is configured with. Immutable for the run.
pub struct MirrorOptions {
    /// The directory that holds the lock file and every local bare
    /// repository.
    pub mirror_dir: String,
    /// Report every job as successful without touching anything.
    pub dry_run: bool,
    /// Where to write the metrics snapshot, if anywhere.
    pub metrics_file: Option<String>,
    /// Where to write the run report, if anywhere.
    pub junit_file: Option<String>,
    /// How many jobs may run at once; at least one.
    pub worker_count: usize,
    /// The git executable every command runs.
    pub git_executable: String,
    /// The refspec pushed for jobs that name none of their own; absent
    /// means push everything.
    pub refspec: Option<Vec<String>>,
    /// Remove each job's working directory after a successful push.
    pub remove_workrepo: bool,
    /// Exit unsuccessfully when any sync task failed.
    pub fail_on_sync_error: bool,
    /// Whether large-file content is mirrored at all.
    pub mirror_lfs: bool,
    /// The bound, in seconds, on each git invocation; absent means no
    /// bound.
    pub git_timeout: Option<u64>,
}

} // verus!
