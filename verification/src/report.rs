//! The run report: one record per job, the per-category counters, and the
//! per-project timestamps.

use vstd::prelude::*;

use crate::error::{error_message, GitMirrorError, GitMirrorErrorView};
use crate::git::GitErrorView;

verus! {

/// How one job ended.
#[derive(Debug, Clone, PartialEq, Eq)]
pub enum JobStatus {
    /// The mirror was brought up to date and pushed.
    Success,
    /// The project asked to be skipped; carries the project URL.
    Skipped(String),
    /// The project's description could not be parsed; carries the project
    /// URL and the cause.
    ParseError(String, String),
    /// The job's pipeline failed; carries the failure.
    SyncError(GitMirrorError),
}

/// The model of a [`JobStatus`].
pub enum JobStatusView {
    Success,
    Skipped(Seq<char>),
    ParseError(Seq<char>, Seq<char>),
    SyncError(GitMirrorErrorView),
}

impl View for JobStatus {
    type V = JobStatusView;

    open spec fn view(&self) -> JobStatusView {
        match self {
            JobStatus::Success => JobStatusView::Success,
            JobStatus::Skipped(url) => JobStatusView::Skipped(url@),
            JobStatus::ParseError(url, cause) => JobStatusView::ParseError(url@, cause@),
            JobStatus::SyncError(e) => JobStatusView::SyncError(e@),
        }
    }
}

impl DeepView for JobStatus {
    type V = JobStatusView;

    open spec fn deep_view(&self) -> JobStatusView {
        self.view()
    }
}

/// The counter category a status falls under.
#[derive(PartialEq, Eq, Structural)]
pub enum StatusClass {
    Succeeded,
    Failed,
    TimedOut,
    Skipped,
    Unparsed,
}

/// Whether a job failure is rooted in a timed-out git invocation.
pub open spec fn is_timeout_error(e: GitMirrorErrorView) -> bool {
    e matches GitMirrorErrorView::GitError(GitErrorView::GitCommandTimeout { .. })
}

/// The category each status counts under: a failure rooted in a timeout
/// counts as a timeout, not as a plain failure.
pub open spec fn class_of(s: JobStatusView) -> StatusClass {
    match s {
        JobStatusView::Success => StatusClass::Succeeded,
        JobStatusView::Skipped(_) => StatusClass::Skipped,
        JobStatusView::ParseError(_, _) => StatusClass::Unparsed,
        JobStatusView::SyncError(e) => if is_timeout_error(e) {
            StatusClass::TimedOut
        } else {
            StatusClass::Failed
        },
    }
}

/// How many of the statuses fall under class `c`.
pub open spec fn count_class(s: Seq<JobStatusView>, c: StatusClass) -> nat
    decreases s.len(),
{
    if s.len() == 0 {
        0
    } else {
        count_class(s.drop_last(), c) + if class_of(s.last()) == c {
            1nat
        } else {
            0nat
        }
    }
}

/// No class is counted more often than there are statuses.
pub proof fn lemma_count_class_le_len(s: Seq<JobStatusView>, c: StatusClass)
    ensures
        count_class(s, c) <= s.len(),
    decreases s.len(),
{
    if s.len() > 0 {
        lemma_count_class_le_len(s.drop_last(), c);
    }
}

/// Every status falls under exactly one class, so the five counters
/// together count every record exactly once:
/// `total == ok + fail + timeout + skip + parse_error`.
pub proof fn lemma_counters_balance(s: Seq<JobStatusView>)
    ensures
        count_class(s, StatusClass::Succeeded) + count_class(s, StatusClass::Failed) + count_class(
            s,
            StatusClass::TimedOut,
        ) + count_class(s, StatusClass::Skipped) + count_class(s, StatusClass::Unparsed) == s.len(),
    decreases s.len(),
{
    if s.len() > 0 {
        lemma_counters_balance(s.drop_last());
    }
}

/// When every status is a skip, the skip counter counts them all and
/// every other counter is zero.
pub proof fn lemma_all_skipped_counters(s: Seq<JobStatusView>)
    requires
        forall|i: int| 0 <= i < s.len() ==> (#[trigger] s[i]) matches JobStatusView::Skipped(_),
    ensures
        count_class(s, StatusClass::Succeeded) == 0,
        count_class(s, StatusClass::Failed) == 0,
        count_class(s, StatusClass::TimedOut) == 0,
        count_class(s, StatusClass::Unparsed) == 0,
        count_class(s, StatusClass::Skipped) == s.len(),
    decreases s.len(),
{
    if s.len() > 0 {
        lemma_all_skipped_counters(s.drop_last());
    }
}

/// One job's contribution to the run report.
#[derive(Debug, Clone, PartialEq, Eq)]
pub struct JobOutcome {
    /// "origin -> destination" for mirror jobs, the project URL for
    /// skips, empty for parse errors.
    pub name: String,
    /// How long the job ran, in milliseconds.
    pub duration_ms: u64,
    /// How the job ended.
    pub status: JobStatus,
}

/// The model of a [`JobOutcome`].
#[verifier::ext_equal]
pub struct JobOutcomeView {
    pub name: Seq<char>,
    pub duration_ms: u64,
    pub status: JobStatusView,
}

impl View for JobOutcome {
    type V = JobOutcomeView;

    open spec fn view(&self) -> JobOutcomeView {
        JobOutcomeView { name: self.name@, duration_ms: self.duration_ms, status: self.status@ }
    }
}

impl DeepView for JobOutcome {
    type V = JobOutcomeView;

    open spec fn deep_view(&self) -> JobOutcomeView {
        self.view()
    }
}

/// The display name of a mirror job: "origin -> destination".
pub open spec fn job_name_view(origin: Seq<char>, destination: Seq<char>) -> Seq<char> {
    origin + " -> "@ + destination
}

/// Builds the display name of a mirror job.
pub fn job_name(origin: &str, destination: &str) -> (r: String)
    ensures
        r@ == job_name_view(origin@, destination@),
{
    let mut s = origin.to_owned();
    s.append(" -> ");
    s.append(destination);
    s
}

/// One record of the emitted test report.
#[derive(Debug, Clone, PartialEq, Eq)]
pub enum ReportRecord {
    /// A successful job, with its name and duration.
    Success { name: String, duration_ms: u64 },
    /// A failed job: its name, duration, a short kind label, and the
    /// detail text.
    Error { name: String, duration_ms: u64, kind: String, detail: String },
    /// A skipped project, named by its URL.
    Skipped { name: String },
}

/// The model of a [`ReportRecord`].
pub enum ReportRecordView {
    Success { name: Seq<char>, duration_ms: u64 },
    Error { name: Seq<char>, duration_ms: u64, kind: Seq<char>, detail: Seq<char> },
    Skipped { name: Seq<char> },
}

impl View for ReportRecord {
    type V = ReportRecordView;

    open spec fn view(&self) -> ReportRecordView {
        match self {
            ReportRecord::Success { name, duration_ms } => ReportRecordView::Success {
                name: name@,
                duration_ms: *duration_ms,
            },
            ReportRecord::Error { name, duration_ms, kind, detail } => ReportRecordView::Error {
                name: name@,
                duration_ms: *duration_ms,
                kind: kind@,
                detail: detail@,
            },
            ReportRecord::Skipped { name } => ReportRecordView::Skipped { name: name@ },
        }
    }
}

/// The report record an outcome maps to.
pub open spec fn record_view_for(o: JobOutcomeView) -> ReportRecordView {
    match o.status {
        JobStatusView::Success => ReportRecordView::Success {
            name: o.name,
            duration_ms: o.duration_ms,
        },
        JobStatusView::Skipped(url) => ReportRecordView::Skipped { name: url },
        JobStatusView::ParseError(_, cause) => ReportRecordView::Error {
            name: ""@,
            duration_ms: o.duration_ms,
            kind: "parse error"@,
            detail: cause,
        },
        JobStatusView::SyncError(e) => ReportRecordView::Error {
            name: o.name,
            duration_ms: o.duration_ms,
            kind: "sync error"@,
            detail: error_message(e),
        },
    }
}

/// Maps one outcome to its report record: a success record for a
/// success, a skipped record naming the project URL for a skip, and an
/// error record otherwise — kind "parse error" with the cause as detail,
/// or kind "sync error" with the failure's description as detail.
pub fn record_for(o: &JobOutcome) -> (r: ReportRecord)
    ensures
        r@ == record_view_for(o@),
{
    match &o.status {
        JobStatus::Success => ReportRecord::Success {
            name: o.name.clone(),
            duration_ms: o.duration_ms,
        },
        JobStatus::Skipped(url) => ReportRecord::Skipped { name: url.clone() },
        JobStatus::ParseError(_, cause) => {
            let name = String::new();
            proof {
                reveal_strlit("");
                assert(name@ =~= ""@);
            }
            ReportRecord::Error {
                name,
                duration_ms: o.duration_ms,
                kind: String::from_str("parse error"),
                detail: cause.clone(),
            }
        },
        JobStatus::SyncError(e) => ReportRecord::Error {
            name: o.name.clone(),
            duration_ms: o.duration_ms,
            kind: String::from_str("sync error"),
            detail: e.message(),
        },
    }
}

/// The per-category counters of one run.
#[derive(Debug, Clone, Copy, PartialEq, Eq, Structural)]
pub struct Counters {
    pub total: u64,
    pub ok: u64,
    pub fail: u64,
    pub timeout: u64,
    pub skip: u64,
    pub parse_error: u64,
}

/// When a project's mirroring started and ended, as Unix timestamps.
#[derive(Debug, Clone, PartialEq, Eq)]
pub struct ProjectTime {
    pub origin: String,
    pub destination: String,
    pub start_ts: i64,
    pub end_ts: i64,
}

/// The aggregate a run builds: its label, one outcome per job in input
/// order, and the per-project timestamps.
#[derive(Debug, Clone, PartialEq, Eq)]
pub struct RunReport {
    pub label: String,
    pub records: Vec<JobOutcome>,
    pub project_times: Vec<ProjectTime>,
}

/// The statuses of a report's records, in order.
pub open spec fn statuses_of(records: Seq<JobOutcomeView>) -> Seq<JobStatusView> {
    records.map_values(|o: JobOutcomeView| o.status)
}

impl RunReport {
    /// A report with no records yet, under the given label.
    pub fn new(label: String) -> (r: RunReport)
        ensures
            r.label@ == label@,
            r.records@.len() == 0,
            r.project_times@.len() == 0,
    {
        RunReport { label, records: Vec::new(), project_times: Vec::new() }
    }

    /// Appends one job's outcome.
    pub fn push_outcome(&mut self, outcome: JobOutcome)
        ensures
            final(self).records@ == old(self).records@.push(outcome),
            final(self).label == old(self).label,
            final(self).project_times == old(self).project_times,
    {
        self.records.push(outcome);
    }

    /// Appends one project's start and end timestamps.
    pub fn push_project_time(&mut self, time: ProjectTime)
        ensures
            final(self).project_times@ == old(self).project_times@.push(time),
            final(self).label == old(self).label,
            final(self).records == old(self).records,
    {
        self.project_times.push(time);
    }

    /// Counts each record under its one category. The `skip` counter
    /// counts skipped projects alone; parse errors are counted apart, and
    /// a metrics writer that groups them with skips adds the two.
    pub fn counters(&self) -> (c: Counters)
        ensures
            c.total == self.records@.len(),
            c.ok == count_class(statuses_of(self.records.deep_view()), StatusClass::Succeeded),
            c.fail == count_class(statuses_of(self.records.deep_view()), StatusClass::Failed),
            c.timeout == count_class(statuses_of(self.records.deep_view()), StatusClass::TimedOut),
            c.skip == count_class(statuses_of(self.records.deep_view()), StatusClass::Skipped),
            c.parse_error == count_class(
                statuses_of(self.records.deep_view()),
                StatusClass::Unparsed,
            ),
    {
        let ghost all = statuses_of(self.records.deep_view());
        let mut ok: u64 = 0;
        let mut fail: u64 = 0;
        let mut timeout: u64 = 0;
        let mut skip: u64 = 0;
        let mut parse_error: u64 = 0;
        let mut i: usize = 0;
        proof {
            assert(all.take(0int) =~= Seq::<JobStatusView>::empty());
        }
        while i < self.records.len()
            invariant
                i <= self.records.len(),
                all == statuses_of(self.records.deep_view()),
                all.len() == self.records@.len(),
                ok == count_class(all.take(i as int), StatusClass::Succeeded),
                fail == count_class(all.take(i as int), StatusClass::Failed),
                timeout == count_class(all.take(i as int), StatusClass::TimedOut),
                skip == count_class(all.take(i as int), StatusClass::Skipped),
                parse_error == count_class(all.take(i as int), StatusClass::Unparsed),
            decreases self.records.len() - i,
        {
            proof {
                lemma_count_class_le_len(all.take(i as int), StatusClass::Succeeded);
                lemma_count_class_le_len(all.take(i as int), StatusClass::Failed);
                lemma_count_class_le_len(all.take(i as int), StatusClass::TimedOut);
                lemma_count_class_le_len(all.take(i as int), StatusClass::Skipped);
                lemma_count_class_le_len(all.take(i as int), StatusClass::Unparsed);
                assert(all.take(i + 1int).drop_last() =~= all.take(i as int));
            }
            let is_to = match &self.records[i].status {
                JobStatus::SyncError(e) => match e {
                    GitMirrorError::GitError(g) => matches!(
                        g,
                        crate::git::GitError::GitCommandTimeout { .. }
                    ),
                    _ => false,
                },
                _ => false,
            };
            match &self.records[i].status {
                JobStatus::Success => {
                    ok = ok + 1;
                },
                JobStatus::Skipped(_) => {
                    skip = skip + 1;
                },
                JobStatus::ParseError(_, _) => {
                    parse_error = parse_error + 1;
                },
                JobStatus::SyncError(_) => {
                    if is_to {
                        timeout = timeout + 1;
                    } else {
                        fail = fail + 1;
                    }
                },
            }
            i = i + 1;
        }
        proof {
            assert(all.take(self.records@.len() as int) =~= all);
        }
        Counters {
            total: self.records.len() as u64,
            ok,
            fail,
            timeout,
            skip,
            parse_error,
        }
    }

    /// How many jobs failed: the statuses classed as failures or
    /// timeouts. Skips and parse errors are not sync failures, so they do
    /// not count toward an unsuccessful exit.
    pub fn sync_error_count(&self) -> (n: usize)
        ensures
            n == count_class(statuses_of(self.records.deep_view()), StatusClass::Failed)
                + count_class(statuses_of(self.records.deep_view()), StatusClass::TimedOut),
    {
        let c = self.counters();
        let len = self.records.len();
        proof {
            let sts = statuses_of(self.records.deep_view());
            lemma_counters_balance(sts);
            assert(sts.len() == self.records@.len());
            assert(c.fail + c.timeout <= len);
        }
        (c.fail as usize) + (c.timeout as usize)
    }
}

impl RunReport {
    /// The five counter families this run exposes, with their values, in
    /// order: total, skip, fail, timeout, ok. The skip family covers
    /// skipped projects and parse errors together; the exit decision
    /// counts neither.
    pub fn metric_families(&self) -> (r: Vec<(String, u64)>)
        ensures
            r@.len() == 5,
            r@[0].0@ == "git_mirror_total"@ && r@[0].1 == self.records@.len(),
            r@[1].0@ == "git_mirror_skip"@ && r@[1].1 == count_class(
                statuses_of(self.records.deep_view()),
                StatusClass::Skipped,
            ) + count_class(statuses_of(self.records.deep_view()), StatusClass::Unparsed),
            r@[2].0@ == "git_mirror_fail"@ && r@[2].1 == count_class(
                statuses_of(self.records.deep_view()),
                StatusClass::Failed,
            ),
            r@[3].0@ == "git_mirror_timeout"@ && r@[3].1 == count_class(
                statuses_of(self.records.deep_view()),
                StatusClass::TimedOut,
            ),
            r@[4].0@ == "git_mirror_ok"@ && r@[4].1 == count_class(
                statuses_of(self.records.deep_view()),
                StatusClass::Succeeded,
            ),
    {
        let c = self.counters();
        proof {
            lemma_counters_balance(statuses_of(self.records.deep_view()));
        }
        let mut r: Vec<(String, u64)> = Vec::new();
        r.push((String::from_str("git_mirror_total"), c.total));
        r.push((String::from_str("git_mirror_skip"), c.skip + c.parse_error));
        r.push((String::from_str("git_mirror_fail"), c.fail));
        r.push((String::from_str("git_mirror_timeout"), c.timeout));
        r.push((String::from_str("git_mirror_ok"), c.ok));
        r
    }
}

/// The four timestamp families a run exposes besides the counters: when
/// each project's mirroring started and ended, and when the run itself
/// started and ended, all as Unix timestamps.
pub fn timestamp_family_names() -> (r: Vec<String>)
    ensures
        r@.len() == 4,
        r@[0]@ == "git_mirror_project_start"@,
        r@[1]@ == "git_mirror_project_end"@,
        r@[2]@ == "git_mirror_start_time"@,
        r@[3]@ == "git_mirror_end_time"@,
{
    let mut r: Vec<String> = Vec::new();
    r.push(String::from_str("git_mirror_project_start"));
    r.push(String::from_str("git_mirror_project_end"));
    r.push(String::from_str("git_mirror_start_time"));
    r.push(String::from_str("git_mirror_end_time"));
    r
}

/// The name of the one logical suite every run's records aggregate into.
pub fn suite_name() -> (r: String)
    ensures
        r@ == "Sync Job"@,
{
    String::from_str("Sync Job")
}

} // verus!
