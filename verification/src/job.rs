//! The per-repository pipeline as a state machine.
//!
//! One job proceeds through: probe (git version, and the large-file
//! version when enabled), classify the working directory, clone or update,
//! push, and the optional cleanup. The library decides every transition;
//! a driver performs each requested action and feeds the observation back
//! as a [`JobEvent`].

use vstd::prelude::*;

use crate::error::{GitMirrorError, GitMirrorErrorView};
use crate::git::{
    clone_plan, command_verdict, lfs_version_cmd, observed_view, push_plan, update_plan,
    version_plan, CmdExecErrView, CmdView, CommandOutputView, CommandResult, Git, GitCommand,
    GitWrapper,
};
use crate::layout::{workdir_for, workdir_view};
use crate::provider::{MirrorError, MirrorResult};
use crate::report::{class_of, JobStatus, JobStatusView, StatusClass};
use crate::MirrorOptions;

verus! {

/// What a path names on disk.
#[derive(Debug, Clone, Copy, PartialEq, Eq, Structural)]
pub enum PathKind {
    /// Nothing exists there.
    Missing,
    /// A directory exists there.
    Directory,
    /// Something else (a file) exists there.
    File,
}

/// What the driver observed after performing the requested action.
#[derive(Debug, PartialEq, Eq)]
pub enum JobEvent {
    /// The outcome of the requested git command.
    Command(CommandResult),
    /// What the working directory path names.
    Path(PathKind),
    /// The outcome of removing the working directory; an error carries
    /// the OS error text.
    Removal(core::result::Result<(), String>),
}

/// The model of a [`JobEvent`].
pub enum JobEventView {
    Command(core::result::Result<CommandOutputView, CmdExecErrView>),
    Path(PathKind),
    Removal(core::result::Result<(), Seq<char>>),
}

impl View for JobEvent {
    type V = JobEventView;

    open spec fn view(&self) -> JobEventView {
        match self {
            JobEvent::Command(res) => JobEventView::Command(observed_view(*res)),
            JobEvent::Path(kind) => JobEventView::Path(*kind),
            JobEvent::Removal(res) => JobEventView::Removal(
                match res {
                    Ok(u) => Ok(*u),
                    Err(e) => Err(e@),
                },
            ),
        }
    }
}

impl DeepView for JobEvent {
    type V = JobEventView;

    open spec fn deep_view(&self) -> JobEventView {
        self.view()
    }
}

/// Everything one mirror job carries between steps.
pub struct JobCtx {
    /// The backend that plans this job's commands.
    pub git: Git,
    pub origin: String,
    pub destination: String,
    /// The refspec this job pushes: its own, or the run's default.
    pub refspec: Option<Vec<String>>,
    /// Whether this job mirrors large-file content.
    pub lfs: bool,
    /// The working directory, `mirror_dir/slug(origin)`.
    pub workdir: String,
    /// Remove the working directory after a successful push.
    pub remove_workrepo: bool,
}

/// The model of a [`JobCtx`].
#[verifier::ext_equal]
pub struct JobCtxView {
    pub exe: Seq<char>,
    pub backend_lfs: bool,
    pub timeout: Option<u64>,
    pub origin: Seq<char>,
    pub destination: Seq<char>,
    pub refspec: Option<Seq<Seq<char>>>,
    pub lfs: bool,
    pub workdir: Seq<char>,
    pub remove_workrepo: bool,
}

impl View for JobCtx {
    type V = JobCtxView;

    open spec fn view(&self) -> JobCtxView {
        JobCtxView {
            exe: self.git.exe_view(),
            backend_lfs: self.git.lfs_on(),
            timeout: self.git.timeout_secs(),
            origin: self.origin@,
            destination: self.destination@,
            refspec: self.refspec.deep_view(),
            lfs: self.lfs,
            workdir: self.workdir@,
            remove_workrepo: self.remove_workrepo,
        }
    }
}

/// Where one job stands. The driver reads the requested action off the
/// state with [`job_action`] and answers it through [`job_step`].
pub enum JobState {
    /// Probing the backend; the head of `pending` is being run.
    RunningProbe { job: JobCtx, pending: Vec<GitCommand> },
    /// Waiting to learn what the working directory path names.
    Classifying { job: JobCtx },
    /// Cloning or updating, then pushing; the head of `pending` is being
    /// run.
    RunningSync { job: JobCtx, pending: Vec<GitCommand> },
    /// Waiting for the working directory to be removed.
    Cleaning { job: JobCtx },
    /// The job is over.
    Done(JobStatus),
}

/// The model of a [`JobState`].
#[verifier::ext_equal]
pub enum JobStateView {
    RunningProbe { job: JobCtxView, pending: Seq<CmdView> },
    Classifying { job: JobCtxView },
    RunningSync { job: JobCtxView, pending: Seq<CmdView> },
    Cleaning { job: JobCtxView },
    Done(JobStatusView),
}

impl View for JobState {
    type V = JobStateView;

    open spec fn view(&self) -> JobStateView {
        match self {
            JobState::RunningProbe { job, pending } => JobStateView::RunningProbe {
                job: job@,
                pending: pending.deep_view(),
            },
            JobState::Classifying { job } => JobStateView::Classifying { job: job@ },
            JobState::RunningSync { job, pending } => JobStateView::RunningSync {
                job: job@,
                pending: pending.deep_view(),
            },
            JobState::Cleaning { job } => JobStateView::Cleaning { job: job@ },
            JobState::Done(status) => JobStateView::Done(status@),
        }
    }
}

/// What the driver must do next.
pub enum JobAction<'a> {
    /// Run this git command and report a [`JobEvent::Command`].
    RunCommand(&'a GitCommand),
    /// Say what this path names and report a [`JobEvent::Path`].
    CheckPath(&'a str),
    /// Remove this directory recursively and report a
    /// [`JobEvent::Removal`].
    RemoveDir(&'a str),
    /// Nothing: the job ended with this status.
    Finish(&'a JobStatus),
}

/// The model of a [`JobAction`].
pub enum JobActionView {
    RunCommand(CmdView),
    CheckPath(Seq<char>),
    RemoveDir(Seq<char>),
    Finish(JobStatusView),
}

impl<'a> View for JobAction<'a> {
    type V = JobActionView;

    open spec fn view(&self) -> JobActionView {
        match self {
            JobAction::RunCommand(c) => JobActionView::RunCommand((*c)@),
            JobAction::CheckPath(p) => JobActionView::CheckPath((*p)@),
            JobAction::RemoveDir(p) => JobActionView::RemoveDir((*p)@),
            JobAction::Finish(s) => JobActionView::Finish((*s)@),
        }
    }
}

/// The action each state asks of the driver.
pub open spec fn spec_job_action(state: JobStateView) -> JobActionView {
    match state {
        JobStateView::RunningProbe { job, pending } => JobActionView::RunCommand(pending[0]),
        JobStateView::Classifying { job } => JobActionView::CheckPath(job.workdir),
        JobStateView::RunningSync { job, pending } => JobActionView::RunCommand(pending[0]),
        JobStateView::Cleaning { job } => JobActionView::RemoveDir(job.workdir),
        JobStateView::Done(status) => JobActionView::Finish(status),
    }
}

/// A state is well formed when a command is pending wherever one is being
/// run.
pub open spec fn state_wf(state: JobStateView) -> bool {
    match state {
        JobStateView::RunningProbe { pending, .. } => pending.len() > 0,
        JobStateView::RunningSync { pending, .. } => pending.len() > 0,
        _ => true,
    }
}

/// Reads the requested action off the state.
pub fn job_action<'a>(state: &'a JobState) -> (a: JobAction<'a>)
    requires
        state_wf(state@),
    ensures
        a@ == spec_job_action(state@),
{
    match state {
        JobState::RunningProbe { job, pending } => JobAction::RunCommand(&pending[0]),
        JobState::Classifying { job } => JobAction::CheckPath(job.workdir.as_str()),
        JobState::RunningSync { job, pending } => JobAction::RunCommand(&pending[0]),
        JobState::Cleaning { job } => JobAction::RemoveDir(job.workdir.as_str()),
        JobState::Done(status) => JobAction::Finish(status),
    }
}

/// Whether the event answers what the state is waiting for.
pub open spec fn expects(state: JobStateView, event: JobEventView) -> bool {
    match (state, event) {
        (JobStateView::RunningProbe { .. }, JobEventView::Command(_)) => true,
        (JobStateView::RunningSync { .. }, JobEventView::Command(_)) => true,
        (JobStateView::Classifying { .. }, JobEventView::Path(_)) => true,
        (JobStateView::Cleaning { .. }, JobEventView::Removal(_)) => true,
        _ => false,
    }
}

/// The full sync plan once the working directory is classified: update
/// in place when it already exists, clone it afresh when it does not;
/// either way the push follows.
pub open spec fn sync_plan(job: JobCtxView, existing: bool) -> Seq<CmdView> {
    (if existing {
        update_plan(job.backend_lfs, job.exe, job.origin, job.workdir, job.lfs)
    } else {
        clone_plan(job.backend_lfs, job.exe, job.origin, job.workdir, job.lfs)
    }) + push_plan(job.backend_lfs, job.exe, job.destination, job.workdir, job.refspec, job.lfs)
}

/// The message when the working directory path names a file.
pub open spec fn file_in_way_message(workdir: Seq<char>) -> Seq<char> {
    "Local origin dir is a file: "@ + workdir
}

/// The message when the working directory cannot be removed.
pub open spec fn removal_failed_message(workdir: Seq<char>, err: Seq<char>) -> Seq<char> {
    "Unable to delete working repository: "@ + workdir + " because of error: "@ + err
}

/// The state machine of one job. Every transition of [`job_step`] is an
/// application of this function.
pub open spec fn spec_job_step(state: JobStateView, event: JobEventView) -> JobStateView {
    match (state, event) {
        (JobStateView::RunningProbe { job, pending }, JobEventView::Command(res)) => {
            match command_verdict(pending[0], res) {
                Ok(u) => {
                    if pending.len() <= 1 {
                        JobStateView::Classifying { job }
                    } else {
                        JobStateView::RunningProbe { job, pending: pending.skip(1) }
                    }
                },
                Err(e) => JobStateView::Done(
                    JobStatusView::SyncError(GitMirrorErrorView::GitError(e)),
                ),
            }
        },
        (JobStateView::Classifying { job }, JobEventView::Path(kind)) => {
            match kind {
                PathKind::Directory => JobStateView::RunningSync {
                    job,
                    pending: sync_plan(job, true),
                },
                PathKind::Missing => JobStateView::RunningSync {
                    job,
                    pending: sync_plan(job, false),
                },
                PathKind::File => JobStateView::Done(
                    JobStatusView::SyncError(
                        GitMirrorErrorView::GenericError(file_in_way_message(job.workdir)),
                    ),
                ),
            }
        },
        (JobStateView::RunningSync { job, pending }, JobEventView::Command(res)) => {
            match command_verdict(pending[0], res) {
                Ok(u) => {
                    if pending.len() > 1 {
                        JobStateView::RunningSync { job, pending: pending.skip(1) }
                    } else if job.remove_workrepo {
                        JobStateView::Cleaning { job }
                    } else {
                        JobStateView::Done(JobStatusView::Success)
                    }
                },
                Err(e) => JobStateView::Done(
                    JobStatusView::SyncError(GitMirrorErrorView::GitError(e)),
                ),
            }
        },
        (JobStateView::Cleaning { job }, JobEventView::Removal(res)) => {
            match res {
                Ok(u) => JobStateView::Done(JobStatusView::Success),
                Err(e) => JobStateView::Done(
                    JobStatusView::SyncError(
                        GitMirrorErrorView::GenericError(removal_failed_message(job.workdir, e)),
                    ),
                ),
            }
        },
        _ => state,
    }
}

/// Drives one job one step further on what the driver observed.
pub fn job_step(state: JobState, event: JobEvent) -> (next: JobState)
    requires
        state_wf(state@),
        expects(state@, event@),
    ensures
        next@ == spec_job_step(state@, event@),
        state_wf(next@),
{
    match (state, event) {
        (JobState::RunningProbe { job, mut pending }, JobEvent::Command(res)) => {
            let ghost orig = pending.deep_view();
            let verdict = job.git.command_outcome(&pending[0], res);
            match verdict {
                Ok(u) => {
                    let _ = pending.remove(0);
                    proof {
                        assert(pending.deep_view() =~~= orig.skip(1));
                    }
                    if pending.len() == 0 {
                        JobState::Classifying { job }
                    } else {
                        JobState::RunningProbe { job, pending }
                    }
                },
                Err(e) => JobState::Done(
                    JobStatus::SyncError(GitMirrorError::GitError(e)),
                ),
            }
        },
        (JobState::Classifying { job }, JobEvent::Path(kind)) => {
            match kind {
                PathKind::Directory => {
                    let pending = build_sync_plan(&job, true);
                    JobState::RunningSync { job, pending }
                },
                PathKind::Missing => {
                    let pending = build_sync_plan(&job, false);
                    JobState::RunningSync { job, pending }
                },
                PathKind::File => {
                    let mut msg = String::from_str("Local origin dir is a file: ");
                    msg.append(job.workdir.as_str());
                    JobState::Done(
                        JobStatus::SyncError(GitMirrorError::GenericError(msg)),
                    )
                },
            }
        },
        (JobState::RunningSync { job, mut pending }, JobEvent::Command(res)) => {
            let ghost orig = pending.deep_view();
            let verdict = job.git.command_outcome(&pending[0], res);
            match verdict {
                Ok(u) => {
                    let _ = pending.remove(0);
                    proof {
                        assert(pending.deep_view() =~~= orig.skip(1));
                    }
                    if pending.len() > 0 {
                        JobState::RunningSync { job, pending }
                    } else if job.remove_workrepo {
                        JobState::Cleaning { job }
                    } else {
                        JobState::Done(JobStatus::Success)
                    }
                },
                Err(e) => JobState::Done(
                    JobStatus::SyncError(GitMirrorError::GitError(e)),
                ),
            }
        },
        (JobState::Cleaning { job }, JobEvent::Removal(res)) => {
            match res {
                Ok(u) => JobState::Done(JobStatus::Success),
                Err(e) => {
                    let mut msg = String::from_str("Unable to delete working repository: ");
                    msg.append(job.workdir.as_str());
                    msg.append(" because of error: ");
                    msg.append(e.as_str());
                    JobState::Done(
                        JobStatus::SyncError(GitMirrorError::GenericError(msg)),
                    )
                },
            }
        },
        (other, _) => other,
    }
}

/// The probe plan a job starts with: the version command, then the
/// large-file version command when the backend mirrors large files.
pub open spec fn probe_plan(exe: Seq<char>, backend_lfs: bool) -> Seq<CmdView> {
    if backend_lfs {
        version_plan(exe) + seq![lfs_version_cmd(exe)]
    } else {
        version_plan(exe)
    }
}

/// The job context [`mirror_repo`] sets up.
pub open spec fn spec_job_ctx(
    origin: Seq<char>,
    destination: Seq<char>,
    refspec: Option<Seq<Seq<char>>>,
    lfs: bool,
    opts: MirrorOptions,
) -> JobCtxView {
    JobCtxView {
        exe: opts.git_executable@,
        backend_lfs: opts.mirror_lfs,
        timeout: opts.git_timeout,
        origin: origin,
        destination: destination,
        refspec: refspec,
        lfs: lfs,
        workdir: workdir_view(opts.mirror_dir@, origin),
        remove_workrepo: opts.remove_workrepo,
    }
}

/// The state one mirror job starts in: done at once on a dry run, else
/// probing.
pub open spec fn spec_mirror_repo(
    origin: Seq<char>,
    destination: Seq<char>,
    refspec: Option<Seq<Seq<char>>>,
    lfs: bool,
    opts: MirrorOptions,
) -> JobStateView {
    if opts.dry_run {
        JobStateView::Done(JobStatusView::Success)
    } else {
        JobStateView::RunningProbe {
            job: spec_job_ctx(origin, destination, refspec, lfs, opts),
            pending: probe_plan(opts.git_executable@, opts.mirror_lfs),
        }
    }
}

/// Starts the pipeline that mirrors `origin` to `destination`. On a dry
/// run the job is over at once, successfully and with nothing asked of
/// the driver.
pub fn mirror_repo(
    origin: &str,
    destination: &str,
    refspec: &Option<Vec<String>>,
    lfs: bool,
    opts: &MirrorOptions,
) -> (state: JobState)
    ensures
        state@ == spec_mirror_repo(origin@, destination@, refspec.deep_view(), lfs, *opts),
        state_wf(state@),
{
    if opts.dry_run {
        return JobState::Done(JobStatus::Success);
    }
    let git = Git::new(opts.git_executable.clone(), opts.mirror_lfs, opts.git_timeout);
    let workdir = workdir_for(opts.mirror_dir.as_str(), origin);
    let mut pending = git.git_version();
    if opts.mirror_lfs {
        let mut lfs_probe = git.git_lfs_version();
        pending.append(&mut lfs_probe);
    }
    proof {
        assert(pending.deep_view() =~~= probe_plan(opts.git_executable@, opts.mirror_lfs));
    }
    let job = JobCtx {
        git,
        origin: origin.to_owned(),
        destination: destination.to_owned(),
        refspec: clone_refspec(refspec),
        lfs,
        workdir,
        remove_workrepo: opts.remove_workrepo,
    };
    let state = JobState::RunningProbe { job, pending };
    proof {
        assert(state@ =~~= spec_mirror_repo(origin@, destination@, refspec.deep_view(), lfs, *opts));
    }
    state
}

/// The refspec a job pushes: its own when it names one, otherwise the
/// run's default.
pub open spec fn spec_effective_refspec(
    job: Option<Seq<Seq<char>>>,
    run_default: Option<Seq<Seq<char>>>,
) -> Option<Seq<Seq<char>>> {
    if job is Some {
        job
    } else {
        run_default
    }
}

/// Resolves the refspec a job pushes.
pub fn effective_refspec(job: &Option<Vec<String>>, run_default: &Option<Vec<String>>) -> (r:
    Option<Vec<String>>)
    ensures
        r.deep_view() == spec_effective_refspec(job.deep_view(), run_default.deep_view()),
{
    match job {
        Some(_) => clone_refspec(job),
        None => clone_refspec(run_default),
    }
}

/// Copies an optional refspec list, string by string.
fn clone_refspec(r: &Option<Vec<String>>) -> (out: Option<Vec<String>>)
    ensures
        out.deep_view() == r.deep_view(),
{
    match r {
        None => None,
        Some(v) => {
            let mut out: Vec<String> = Vec::new();
            let mut i: usize = 0;
            while i < v.len()
                invariant
                    i <= v.len(),
                    out.deep_view() == v.deep_view().take(i as int),
                decreases v.len() - i,
            {
                out.push(v[i].clone());
                proof {
                    assert(v.deep_view().take(i + 1int) =~= v.deep_view().take(i as int).push(
                        v.deep_view()[i as int],
                    ));
                    assert(out.deep_view() =~~= v.deep_view().take(i as int).push(
                        v.deep_view()[i as int],
                    ));
                }
                i = i + 1;
            }
            proof {
                assert(v.deep_view().take(v.len() as int) =~= v.deep_view());
            }
            Some(out)
        },
    }
}

/// The state one provider entry starts in: a skip or parse-error entry is
/// over at once, under its own status; a mirror entry starts the
/// pipeline with its effective refspec.
pub open spec fn spec_job_start(entry: MirrorResult, opts: MirrorOptions) -> JobStateView {
    match entry {
        Ok(m) => spec_mirror_repo(
            m.origin@,
            m.destination@,
            spec_effective_refspec(m.refspec.deep_view(), opts.refspec.deep_view()),
            m.lfs,
            opts,
        ),
        Err(MirrorError::Skip(url)) => JobStateView::Done(JobStatusView::Skipped(url@)),
        Err(MirrorError::Description(url, cause)) => JobStateView::Done(
            JobStatusView::ParseError(url@, cause@),
        ),
    }
}

/// Starts the job for one provider entry.
pub fn job_start(entry: &MirrorResult, opts: &MirrorOptions) -> (state: JobState)
    ensures
        state@ == spec_job_start(*entry, *opts),
        state_wf(state@),
{
    match entry {
        Ok(m) => {
            let refspec = effective_refspec(&m.refspec, &opts.refspec);
            let state = mirror_repo(
                m.origin.as_str(),
                m.destination.as_str(),
                &refspec,
                m.lfs,
                opts,
            );
            state
        },
        Err(MirrorError::Skip(url)) => JobState::Done(JobStatus::Skipped(url.clone())),
        Err(MirrorError::Description(url, cause)) => JobState::Done(
            JobStatus::ParseError(url.clone(), cause.clone()),
        ),
    }
}

/// Every step preserves well-formedness: a state that runs commands
/// always has one pending.
pub proof fn lemma_step_preserves_wf(state: JobStateView, event: JobEventView)
    requires
        state_wf(state),
        expects(state, event),
    ensures
        state_wf(spec_job_step(state, event)),
{
}

/// A dry run is over at once, successfully, with nothing asked of the
/// driver: the job starts in a terminal state, so no command, path check
/// or removal is ever requested.
pub proof fn lemma_dry_run_is_immediate_success(
    origin: Seq<char>,
    destination: Seq<char>,
    refspec: Option<Seq<Seq<char>>>,
    lfs: bool,
    opts: MirrorOptions,
)
    requires
        opts.dry_run,
    ensures
        spec_mirror_repo(origin, destination, refspec, lfs, opts) == JobStateView::Done(
            JobStatusView::Success,
        ),
{
}

/// A job reaches success only by completing its work: either the last
/// sync command succeeded and no cleanup was asked for, or the cleanup
/// removal succeeded. In particular the sync plan — clone or update,
/// then push — ran to its end before any success is reported.
pub proof fn lemma_success_only_after_sync(state: JobStateView, event: JobEventView)
    requires
        state_wf(state),
        expects(state, event),
        spec_job_step(state, event) == JobStateView::Done(JobStatusView::Success),
    ensures
        (state matches JobStateView::RunningSync { job, pending } && pending.len() == 1
            && !job.remove_workrepo && (event matches JobEventView::Command(r)
            && (command_verdict(pending[0], r) is Ok))) || (state
            matches JobStateView::Cleaning { job } && (event matches JobEventView::Removal(r)
            && (r is Ok))),
{
}

/// The sync plan is never empty and always ends with the force-push of
/// the working directory to the destination.
pub proof fn lemma_sync_plan_ends_with_push(job: JobCtxView, existing: bool)
    ensures
        sync_plan(job, existing).len() > 0,
        sync_plan(job, existing).last() == crate::git::push_cmd(
            job.exe,
            job.destination,
            job.workdir,
            job.refspec,
        ),
{
}

/// On an unchanged working directory the same job takes the clone path
/// when the directory is absent — the first run — and the update path
/// when it exists — every later run; both continue into the same push.
pub proof fn lemma_clone_then_update(job: JobCtxView)
    ensures
        spec_job_step(
            JobStateView::Classifying { job },
            JobEventView::Path(PathKind::Missing),
        ) == (JobStateView::RunningSync { job, pending: sync_plan(job, false) }),
        spec_job_step(
            JobStateView::Classifying { job },
            JobEventView::Path(PathKind::Directory),
        ) == (JobStateView::RunningSync { job, pending: sync_plan(job, true) }),
        sync_plan(job, false).last() == sync_plan(job, true).last(),
{
}

/// A command that timed out ends the job with a failure that the
/// counters class as a timeout, not as a plain failure.
pub proof fn lemma_timeout_classified_as_timeout(state: JobStateView, event: JobEventView, t: u64)
    requires
        state_wf(state),
        state matches JobStateView::RunningProbe { .. } || state
            matches JobStateView::RunningSync { .. },
        event == JobEventView::Command(
            Err::<CommandOutputView, CmdExecErrView>(CmdExecErrView::TimeoutReachedError(t)),
        ),
    ensures
        spec_job_step(state, event) matches JobStateView::Done(status) && class_of(status)
            == StatusClass::TimedOut,
{
}

/// Builds the sync plan as executable commands.
fn build_sync_plan(job: &JobCtx, existing: bool) -> (r: Vec<GitCommand>)
    ensures
        r.deep_view() == sync_plan(job@, existing),
        r.deep_view().len() > 0,
{
    let mut cmds = if existing {
        job.git.git_update_mirror(job.origin.as_str(), job.workdir.as_str(), job.lfs)
    } else {
        job.git.git_clone_mirror(job.origin.as_str(), job.workdir.as_str(), job.lfs)
    };
    let mut push = job.git.git_push_mirror(
        job.destination.as_str(),
        job.workdir.as_str(),
        &job.refspec,
        job.lfs,
    );
    cmds.append(&mut push);
    proof {
        assert(cmds.deep_view() =~~= sync_plan(job@, existing));
    }
    cmds
}

} // verus!
