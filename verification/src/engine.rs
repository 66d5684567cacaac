//! The run engine: every provider entry becomes exactly one job, every
//! job exactly one report record, in input order.
//!
//! [`run_sync_task`] composes the per-job state machine over pre-recorded
//! event lists — one list per entry — and aggregates the outcomes into a
//! [`RunReport`]. A live driver instead walks [`crate::job::job_start`],
//! [`crate::job::job_action`] and [`crate::job::job_step`] itself, so that
//! it can run commands, measure durations and record timestamps; this
//! composition is the engine's contract and what the tests exercise.

use vstd::prelude::*;

use crate::job::{
    expects, job_start, job_step, lemma_step_preserves_wf, lemma_success_only_after_sync,
    spec_job_start, spec_job_step, state_wf, JobEvent, JobEventView, JobState, JobStateView,
};
use crate::provider::{MirrorError, MirrorResult};
use crate::report::{job_name, job_name_view, JobOutcome, JobStatus, JobStatusView, RunReport};
use crate::MirrorOptions;

verus! {

/// The name under which one entry is reported: "origin -> destination"
/// for a mirror job, the project URL for a skip, empty for a parse
/// error.
pub open spec fn spec_outcome_name(entry: MirrorResult) -> Seq<char> {
    match entry {
        Ok(m) => job_name_view(m.origin@, m.destination@),
        Err(MirrorError::Skip(url)) => url@,
        Err(MirrorError::Description(_, _)) => ""@,
    }
}

/// Builds the name under which one entry is reported.
pub fn outcome_name(entry: &MirrorResult) -> (r: String)
    ensures
        r@ == spec_outcome_name(*entry),
{
    match entry {
        Ok(m) => job_name(m.origin.as_str(), m.destination.as_str()),
        Err(MirrorError::Skip(url)) => url.clone(),
        Err(MirrorError::Description(_, _)) => {
            let r = String::new();
            proof {
                reveal_strlit("");
                assert(r@ =~= ""@);
            }
            r
        },
    }
}

/// Where a job ends on a list of events: its status once it is done,
/// or nothing when the events run out, or fail to answer what the state
/// is waiting for, first.
pub open spec fn spec_run_job(state: JobStateView, events: Seq<JobEventView>) -> Option<
    JobStatusView,
>
    decreases events.len(),
{
    match state {
        JobStateView::Done(status) => Some(status),
        _ => if events.len() == 0 {
            None
        } else if expects(state, events[0]) {
            spec_run_job(spec_job_step(state, events[0]), events.skip(1))
        } else {
            None
        },
    }
}

/// Whether the event answers what the state is waiting for.
fn event_matches(state: &JobState, event: &JobEvent) -> (b: bool)
    ensures
        b == expects(state@, event@),
{
    match (state, event) {
        (JobState::RunningProbe { .. }, JobEvent::Command(_)) => true,
        (JobState::RunningSync { .. }, JobEvent::Command(_)) => true,
        (JobState::Classifying { .. }, JobEvent::Path(_)) => true,
        (JobState::Cleaning { .. }, JobEvent::Removal(_)) => true,
        _ => false,
    }
}

/// Runs one entry's job to its end on a pre-recorded list of events.
pub fn run_job(entry: &MirrorResult, opts: &MirrorOptions, events: Vec<JobEvent>) -> (r: Option<
    JobStatus,
>)
    ensures
        spec_run_job(spec_job_start(*entry, *opts), events.deep_view()) == (match r {
            Some(status) => Some(status@),
            None => None::<JobStatusView>,
        }),
{
    let mut state = job_start(entry, opts);
    let mut evs = events;
    loop
        invariant
            state_wf(state@),
            spec_run_job(spec_job_start(*entry, *opts), events.deep_view()) == spec_run_job(
                state@,
                evs.deep_view(),
            ),
        decreases evs.len(),
    {
        state = match state {
            JobState::Done(status) => {
                return Some(status);
            },
            other => other,
        };
        if evs.len() == 0 {
            return None;
        }
        let ghost pre = evs.deep_view();
        let ev = evs.remove(0);
        proof {
            assert(evs.deep_view() =~~= pre.skip(1));
            assert(ev@ == pre[0]);
        }
        if !event_matches(&state, &ev) {
            return None;
        }
        state = job_step(state, ev);
    }
}

/// Runs every entry's job on its own event list and aggregates the
/// report: exactly one record per entry, in input order, each under the
/// entry's name and with the status its events drive it to. Yields
/// nothing when any entry's events fail to run its job to the end.
pub fn run_sync_task(
    entries: &Vec<MirrorResult>,
    label: &str,
    opts: &MirrorOptions,
    events: Vec<Vec<JobEvent>>,
) -> (r: Option<RunReport>)
    requires
        events@.len() == entries@.len(),
    ensures
        (r is Some) == (forall|i: int|
            0 <= i < entries@.len() ==> (spec_run_job(
                spec_job_start(entries@[i], *opts),
                events.deep_view()[i],
            ) is Some)),
        r matches Some(rep) ==> {
            &&& rep.records@.len() == entries@.len()
            &&& rep.label@ == label@
            &&& rep.project_times@.len() == 0
            &&& forall|i: int|
                0 <= i < entries@.len() ==> spec_run_job(
                    spec_job_start(entries@[i], *opts),
                    events.deep_view()[i],
                ) == Some(#[trigger] rep.records@[i]@.status) && rep.records@[i]@.name
                    == spec_outcome_name(entries@[i]) && rep.records@[i]@.duration_ms == 0
        },
{
    let mut report = RunReport::new(label.to_owned());
    let mut evs = events;
    let mut i: usize = 0;
    while i < entries.len()
        invariant
            i <= entries@.len(),
            events@.len() == entries@.len(),
            evs.deep_view() =~= events.deep_view().skip(i as int),
            report.records@.len() == i,
            report.label@ == label@,
            report.project_times@.len() == 0,
            forall|j: int|
                0 <= j < i ==> spec_run_job(
                    spec_job_start(entries@[j], *opts),
                    events.deep_view()[j],
                ) == Some(#[trigger] report.records@[j]@.status) && report.records@[j]@.name
                    == spec_outcome_name(entries@[j]) && report.records@[j]@.duration_ms == 0,
        decreases entries@.len() - i,
    {
        let entry = &entries[i];
        let ghost pre = evs.deep_view();
        let ghost prevec = evs@;
        proof {
            assert(pre.len() == evs@.len());
            assert(events.deep_view().len() == events@.len());
            assert(pre.len() == events@.len() - i);
        }
        let entry_events = evs.remove(0);
        proof {
            assert(evs.deep_view() =~~= pre.skip(1));
            assert(pre.skip(1) =~= events.deep_view().skip(i + 1int));
            assert(entry_events == prevec[0]);
            assert(entry_events.deep_view() == pre[0]);
            assert(pre[0] == events.deep_view()[i as int]);
        }
        let name = outcome_name(entry);
        match run_job(entry, opts, entry_events) {
            None => {
                return None;
            },
            Some(status) => {
                report.push_outcome(JobOutcome { name, duration_ms: 0, status });
            },
        }
        i = i + 1;
    }
    proof {
        assert forall|k: int| 0 <= k < entries@.len() implies (spec_run_job(
            spec_job_start(entries@[k], *opts),
            events.deep_view()[k],
        ) is Some) by {
            assert(spec_run_job(spec_job_start(entries@[k], *opts), events.deep_view()[k]) == Some(
                report.records@[k]@.status,
            ));
        }
    }
    Some(report)
}

/// Whether an event reports outside work done successfully: a command
/// whose child exited successfully, or a completed removal.
pub open spec fn success_observation(e: JobEventView) -> bool {
    match e {
        JobEventView::Command(res) => match res {
            Ok(o) => o.success,
            Err(_) => false,
        },
        JobEventView::Removal(r) => r is Ok,
        JobEventView::Path(_) => false,
    }
}

/// A job that ends successfully did real work: unless it was over at its
/// start — a dry run, a skip, a parse error — its trace contains an
/// event reporting outside work done successfully: a command that exited
/// successfully, or a completed removal. Which work that is, the step
/// machine pins down: the last sync command, or the cleanup.
pub proof fn lemma_success_needs_successful_work(state: JobStateView, events: Seq<JobEventView>)
    requires
        !(state is Done),
        state_wf(state),
        spec_run_job(state, events) == Some(JobStatusView::Success),
    ensures
        exists|i: int| 0 <= i < events.len() && success_observation(#[trigger] events[i]),
    decreases events.len(),
{
    if events.len() == 0 {
        assert(spec_run_job(state, events) is None);
    }
    if !expects(state, events[0]) {
        assert(spec_run_job(state, events) is None);
    }
    let next = spec_job_step(state, events[0]);
    lemma_step_preserves_wf(state, events[0]);
    assert(spec_run_job(state, events) == spec_run_job(next, events.skip(1)));
    if next is Done {
        assert(next == JobStateView::Done(JobStatusView::Success));
        lemma_success_only_after_sync(state, events[0]);
        assert(success_observation(events[0]));
    } else {
        lemma_success_needs_successful_work(next, events.skip(1));
        let i = choose|i: int|
            0 <= i < events.skip(1).len() && success_observation(#[trigger] events.skip(1)[i]);
        assert(events.skip(1)[i] == events[i + 1]);
        assert(success_observation(events[i + 1]));
    }
}

/// When every entry asks to be skipped, every job is over at its start,
/// whatever events are offered: each outcome is the skip of that entry's
/// URL.
pub proof fn lemma_all_skips_all_skipped(
    entries: Seq<MirrorResult>,
    opts: MirrorOptions,
    events: Seq<Seq<JobEventView>>,
)
    requires
        forall|i: int| 0 <= i < entries.len() ==> (#[trigger] entries[i]) matches Err(MirrorError::Skip(_)),
    ensures
        forall|i: int|
            0 <= i < entries.len() ==> ((#[trigger] spec_run_job(
                spec_job_start(entries[i], opts),
                events[i],
            )) matches Some(status) && (status matches JobStatusView::Skipped(_))),
{
    assert forall|i: int|
        0 <= i < entries.len() implies ((#[trigger] spec_run_job(
        spec_job_start(entries[i], opts),
        events[i],
    )) matches Some(status) && (status matches JobStatusView::Skipped(_))) by {
        assert((entries[i]) matches Err(MirrorError::Skip(_)));
    }
}

} // verus!
