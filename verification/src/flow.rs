//! The run-level flow: prepare the mirror directory, take the exclusive
//! lock, enumerate the provider, run the jobs, write the artifacts, and
//! derive the exit result.
//!
//! As with a single job, the library decides every transition and a
//! driver performs the filesystem, locking, network and writing work,
//! reporting each observation as a [`FlowEvent`].

use vstd::prelude::*;

use crate::error::{GitMirrorError, GitMirrorErrorView};
use crate::provider::MirrorResult;
use crate::report::{count_class, statuses_of, RunReport, StatusClass};
use crate::MirrorOptions;

verus! {

/// Where one run stands.
pub enum FlowState {
    /// Waiting for the mirror directory to be created.
    CreatingDir,
    /// Waiting for the exclusive lock on the mirror directory.
    Locking,
    /// Waiting for the provider's enumeration.
    Enumerating,
    /// Waiting for the engine to run these jobs.
    Running { entries: Vec<MirrorResult> },
    /// Waiting for the artifacts of this report to be written.
    Writing { report: RunReport },
    /// The run is over, with this result.
    Done(core::result::Result<(), GitMirrorError>),
}

/// What the driver observed after performing the requested work.
pub enum FlowEvent {
    /// The outcome of creating the mirror directory recursively; an
    /// error carries the OS error text.
    DirCreated(core::result::Result<(), String>),
    /// The outcome of creating and exclusively locking the lock file; an
    /// error carries the OS error text.
    Locked(core::result::Result<(), String>),
    /// The provider's enumeration, or its terminal error.
    Enumerated(core::result::Result<Vec<MirrorResult>, String>),
    /// The report the engine aggregated.
    JobsDone(RunReport),
    /// The metrics and report files, where configured, were written.
    ArtifactsWritten,
}

/// What the driver must do next.
pub enum FlowAction<'a> {
    /// Create this directory, recursively, and report a
    /// [`FlowEvent::DirCreated`].
    CreateMirrorDir(String),
    /// Create this file and take an exclusive advisory lock on it for
    /// the rest of the run; report a [`FlowEvent::Locked`].
    AcquireLock(String),
    /// Enumerate the provider and report a [`FlowEvent::Enumerated`].
    Enumerate,
    /// Run these jobs through the engine and report a
    /// [`FlowEvent::JobsDone`].
    RunJobs(&'a Vec<MirrorResult>),
    /// Write the metrics and report files the options name, then report
    /// a [`FlowEvent::ArtifactsWritten`].
    WriteArtifacts(&'a RunReport),
    /// Nothing: the run is over with this result.
    Exit(&'a core::result::Result<(), GitMirrorError>),
}

/// The model of the lock file's path: `git-mirror.lock` inside the
/// mirror directory.
pub open spec fn lock_path_view(mirror_dir: Seq<char>) -> Seq<char> {
    mirror_dir + "/"@ + "git-mirror.lock"@
}

/// The path of the lock file inside the mirror directory.
pub fn lock_path(mirror_dir: &str) -> (r: String)
    ensures
        r@ == lock_path_view(mirror_dir@),
{
    let mut p = mirror_dir.to_owned();
    p.append("/");
    p.append("git-mirror.lock");
    p
}

/// The message when the mirror directory cannot be created.
pub open spec fn dir_create_failed_message(mirror_dir: Seq<char>, err: Seq<char>) -> Seq<char> {
    "Unable to create mirror dir: "@ + mirror_dir + " ("@ + err + ")"@
}

/// The message when the lock cannot be acquired: another instance is
/// running against the same mirror directory.
pub open spec fn lock_failed_message(mirror_dir: Seq<char>, err: Seq<char>) -> Seq<char> {
    "Another instance is already running against the same mirror directory: "@ + mirror_dir + " ("@
        + err + ")"@
}

/// The message when provider enumeration fails.
pub open spec fn enumeration_failed_message(err: Seq<char>) -> Seq<char> {
    "Unable to get mirror repos ("@ + err + ")"@
}

/// How many of the report's jobs failed.
pub open spec fn spec_error_count(report: RunReport) -> nat {
    count_class(statuses_of(report.records.deep_view()), StatusClass::Failed) + count_class(
        statuses_of(report.records.deep_view()),
        StatusClass::TimedOut,
    )
}

/// Whether `res` is the exit result the report and the option dictate:
/// an error naming the failure count exactly when failures occurred and
/// the run is configured to fail on them. Skips and parse errors are not
/// failures here.
pub open spec fn exit_result_matches(
    res: core::result::Result<(), GitMirrorError>,
    report: RunReport,
    fail_on_sync_error: bool,
) -> bool {
    if fail_on_sync_error && spec_error_count(report) > 0 {
        res matches Err(e) && e@ == GitMirrorErrorView::SyncError(spec_error_count(report) as usize)
    } else {
        res is Ok
    }
}

/// Whether the event answers what the state is waiting for.
pub open spec fn flow_expects(state: FlowState, event: FlowEvent) -> bool {
    match (state, event) {
        (FlowState::CreatingDir, FlowEvent::DirCreated(_)) => true,
        (FlowState::Locking, FlowEvent::Locked(_)) => true,
        (FlowState::Enumerating, FlowEvent::Enumerated(_)) => true,
        (FlowState::Running { .. }, FlowEvent::JobsDone(_)) => true,
        (FlowState::Writing { .. }, FlowEvent::ArtifactsWritten) => true,
        _ => false,
    }
}

/// The state machine of one run: what `next` must be after `state`
/// answers `event`. A failure to create the directory, to lock it, or to
/// enumerate ends the run at once with a generic error; the lock failure
/// in particular means another instance owns the mirror directory, and
/// no job runs and no artifact is written.
pub open spec fn spec_flow_step(
    state: FlowState,
    event: FlowEvent,
    opts: MirrorOptions,
    next: FlowState,
) -> bool {
    match (state, event) {
        (FlowState::CreatingDir, FlowEvent::DirCreated(r)) => match r {
            Ok(_) => next is Locking,
            Err(e) => next matches FlowState::Done(res) && (res matches Err(err) && err@
                == GitMirrorErrorView::GenericError(
                dir_create_failed_message(opts.mirror_dir@, e@),
            )),
        },
        (FlowState::Locking, FlowEvent::Locked(r)) => match r {
            Ok(_) => next is Enumerating,
            Err(e) => next matches FlowState::Done(res) && (res matches Err(err) && err@
                == GitMirrorErrorView::GenericError(lock_failed_message(opts.mirror_dir@, e@))),
        },
        (FlowState::Enumerating, FlowEvent::Enumerated(r)) => match r {
            Ok(v) => next == (FlowState::Running { entries: v }),
            Err(e) => next matches FlowState::Done(res) && (res matches Err(err) && err@
                == GitMirrorErrorView::GenericError(enumeration_failed_message(e@))),
        },
        (FlowState::Running { entries }, FlowEvent::JobsDone(report)) => next == (FlowState::Writing {
            report,
        }),
        (FlowState::Writing { report }, FlowEvent::ArtifactsWritten) => next
            matches FlowState::Done(res) && exit_result_matches(res, report, opts.fail_on_sync_error),
        _ => next == state,
    }
}

/// Starts a run: the first thing asked of the driver is to create the
/// mirror directory.
pub fn do_mirror(opts: &MirrorOptions) -> (state: FlowState)
    ensures
        state is CreatingDir,
{
    FlowState::CreatingDir
}

/// Reads the requested action off the state.
pub fn flow_action<'a>(state: &'a FlowState, opts: &MirrorOptions) -> (a: FlowAction<'a>)
    ensures
        state is CreatingDir ==> (a matches FlowAction::CreateMirrorDir(d) && d@
            == opts.mirror_dir@),
        state is Locking ==> (a matches FlowAction::AcquireLock(p) && p@ == lock_path_view(
            opts.mirror_dir@,
        )),
        state is Enumerating ==> a is Enumerate,
        state matches FlowState::Running { entries } ==> (a matches FlowAction::RunJobs(v) && v
            == entries),
        state matches FlowState::Writing { report } ==> (a matches FlowAction::WriteArtifacts(
            rep,
        ) && rep == report),
        state matches FlowState::Done(res) ==> (a matches FlowAction::Exit(r) && r == res),
{
    match state {
        FlowState::CreatingDir => FlowAction::CreateMirrorDir(opts.mirror_dir.clone()),
        FlowState::Locking => FlowAction::AcquireLock(lock_path(opts.mirror_dir.as_str())),
        FlowState::Enumerating => FlowAction::Enumerate,
        FlowState::Running { entries } => FlowAction::RunJobs(entries),
        FlowState::Writing { report } => FlowAction::WriteArtifacts(report),
        FlowState::Done(res) => FlowAction::Exit(res),
    }
}

/// Drives the run one step further on what the driver observed.
pub fn flow_step(state: FlowState, event: FlowEvent, opts: &MirrorOptions) -> (next: FlowState)
    requires
        flow_expects(state, event),
    ensures
        spec_flow_step(state, event, *opts, next),
{
    match (state, event) {
        (FlowState::CreatingDir, FlowEvent::DirCreated(r)) => match r {
            Ok(_) => FlowState::Locking,
            Err(e) => {
                let mut msg = String::from_str("Unable to create mirror dir: ");
                msg.append(opts.mirror_dir.as_str());
                msg.append(" (");
                msg.append(e.as_str());
                msg.append(")");
                FlowState::Done(Err(GitMirrorError::GenericError(msg)))
            },
        },
        (FlowState::Locking, FlowEvent::Locked(r)) => match r {
            Ok(_) => FlowState::Enumerating,
            Err(e) => {
                let mut msg = String::from_str(
                    "Another instance is already running against the same mirror directory: ",
                );
                msg.append(opts.mirror_dir.as_str());
                msg.append(" (");
                msg.append(e.as_str());
                msg.append(")");
                FlowState::Done(Err(GitMirrorError::GenericError(msg)))
            },
        },
        (FlowState::Enumerating, FlowEvent::Enumerated(r)) => match r {
            Ok(v) => FlowState::Running { entries: v },
            Err(e) => {
                let mut msg = String::from_str("Unable to get mirror repos (");
                msg.append(e.as_str());
                msg.append(")");
                FlowState::Done(Err(GitMirrorError::GenericError(msg)))
            },
        },
        (FlowState::Running { entries: _ }, FlowEvent::JobsDone(report)) => FlowState::Writing {
            report,
        },
        (FlowState::Writing { report }, FlowEvent::ArtifactsWritten) => {
            let n = report.sync_error_count();
            if opts.fail_on_sync_error && n > 0 {
                FlowState::Done(Err(GitMirrorError::SyncError(n)))
            } else {
                FlowState::Done(Ok(()))
            }
        },
        (other, _) => other,
    }
}

/// A second engine against a locked mirror directory fails at once with
/// a generic error that names the directory, and the run is over: from
/// that terminal state nothing further — no job, no metrics file, no
/// report file — is ever requested of the driver.
pub proof fn lemma_lock_contention(
    state: FlowState,
    event: FlowEvent,
    opts: MirrorOptions,
    next: FlowState,
    e: String,
)
    requires
        state is Locking,
        event == FlowEvent::Locked(Err::<(), String>(e)),
        spec_flow_step(state, event, opts, next),
    ensures
        next matches FlowState::Done(res) && (res matches Err(err) && err@
            == GitMirrorErrorView::GenericError(lock_failed_message(opts.mirror_dir@, e@))),
{
}

/// A finished run never comes back: every event leaves the terminal
/// state unchanged.
pub proof fn lemma_done_is_terminal(
    state: FlowState,
    event: FlowEvent,
    opts: MirrorOptions,
    next: FlowState,
)
    requires
        state is Done,
        spec_flow_step(state, event, opts, next),
    ensures
        next == state,
{
}

} // verus!
