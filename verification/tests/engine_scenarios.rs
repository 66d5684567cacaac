use git_mirror::engine::{run_job, run_sync_task};
use git_mirror::git::{CommandExecutionError, CommandOutput, GitError};
use git_mirror::job::{job_action, job_start, job_step, JobAction, JobEvent, PathKind};
use git_mirror::error::GitMirrorError;
use git_mirror::provider::{Mirror, MirrorError, MirrorResult};
use git_mirror::report::{JobStatus, RunReport};
use git_mirror::MirrorOptions;

fn options(mirror_dir: &str) -> MirrorOptions {
    MirrorOptions {
        mirror_dir: mirror_dir.to_string(),
        dry_run: false,
        metrics_file: None,
        junit_file: None,
        worker_count: 1,
        git_executable: "git".to_string(),
        refspec: None,
        remove_workrepo: false,
        fail_on_sync_error: false,
        mirror_lfs: false,
        git_timeout: None,
    }
}

fn ok_command() -> JobEvent {
    JobEvent::Command(Ok(CommandOutput { success: true, code: 0, stderr: String::new() }))
}

fn failed_command(code: i32, stderr: &str) -> JobEvent {
    JobEvent::Command(Ok(CommandOutput { success: false, code, stderr: stderr.to_string() }))
}

fn mirror_entry(origin: &str, destination: &str, lfs: bool) -> MirrorResult {
    Ok(Mirror {
        origin: origin.to_string(),
        destination: destination.to_string(),
        refspec: None,
        lfs,
    })
}

#[test]
fn single_success() {
    let opts = options("mirror_dir");
    let entries = vec![mirror_entry("ssh://u@a/x.git", "ssh://u@b/x.git", false)];
    let events = vec![vec![
        ok_command(),
        JobEvent::Path(PathKind::Missing),
        ok_command(),
        ok_command(),
    ]];
    let report = run_sync_task(&entries, "label", &opts, events).unwrap();
    assert_eq!(report.records.len(), 1);
    assert_eq!(report.records[0].status, JobStatus::Success);
    assert_eq!(report.records[0].name, "ssh://u@a/x.git -> ssh://u@b/x.git");
    let c = report.counters();
    assert_eq!(c.total, 1);
    assert_eq!(c.ok, 1);
    assert_eq!(c.fail, 0);
    assert_eq!(c.timeout, 0);
}

#[test]
fn single_success_workdir_name() {
    let workdir = git_mirror::layout::workdir_for("mirror_dir", "ssh://u@a/x.git");
    assert_eq!(workdir, "mirror_dir/ssh-u-a-x-git");
}

#[test]
fn skip_entry() {
    let opts = options("m");
    let entries: Vec<MirrorResult> = vec![Err(MirrorError::Skip(
        "https://forge/p".to_string(),
    ))];
    let report = run_sync_task(&entries, "label", &opts, vec![vec![]]).unwrap();
    assert_eq!(report.records.len(), 1);
    assert_eq!(
        report.records[0].status,
        JobStatus::Skipped("https://forge/p".to_string())
    );
    let c = report.counters();
    assert_eq!(c.skip, 1);
    assert_eq!(c.ok, 0);
    let record = git_mirror::report::record_for(&report.records[0]);
    assert_eq!(
        record,
        git_mirror::report::ReportRecord::Skipped { name: "https://forge/p".to_string() }
    );
}

#[test]
fn parse_error_entry() {
    let opts = options("m");
    let entries: Vec<MirrorResult> = vec![Err(MirrorError::Description(
        "https://forge/p".to_string(),
        "yaml: mapping expected".to_string(),
    ))];
    let report = run_sync_task(&entries, "label", &opts, vec![vec![]]).unwrap();
    assert_eq!(report.records.len(), 1);
    let record = git_mirror::report::record_for(&report.records[0]);
    match record {
        git_mirror::report::ReportRecord::Error { name, kind, detail, .. } => {
            assert_eq!(name, "");
            assert_eq!(kind, "parse error");
            assert_eq!(detail, "yaml: mapping expected");
        }
        other => panic!("expected an error record, got {:?}", other),
    }
    let c = report.counters();
    assert_eq!(c.parse_error, 1);
    assert_eq!(c.skip + c.parse_error, 1);
    assert_eq!(c.fail, 0);
}

#[test]
fn push_failure() {
    let opts = options("m");
    let entries = vec![mirror_entry("orig", "dest", false)];
    let events = vec![vec![
        ok_command(),
        JobEvent::Path(PathKind::Missing),
        ok_command(),
        failed_command(1, "remote rejected"),
    ]];
    let report = run_sync_task(&entries, "label", &opts, events).unwrap();
    assert_eq!(report.records[0].name, "orig -> dest");
    match &report.records[0].status {
        JobStatus::SyncError(GitMirrorError::GitError(GitError::GitCommandError {
            code,
            stderr,
            cmd_str,
        })) => {
            assert_eq!(*code, 1);
            assert_eq!(stderr, "remote rejected");
            assert_eq!(cmd_str, "git -c lfs.url=dest push -f --mirror dest");
        }
        other => panic!("expected a git command failure, got {:?}", other),
    }
    let c = report.counters();
    assert_eq!(c.fail, 1);
    assert_eq!(c.ok, 0);
    assert_eq!(c.timeout, 0);
}

#[test]
fn push_failure_message() {
    let status = JobStatus::SyncError(GitMirrorError::GitError(GitError::GitCommandError {
        code: 1,
        stderr: "remote rejected".to_string(),
        cmd_str: "git push -f --mirror dest".to_string(),
    }));
    let outcome = git_mirror::report::JobOutcome {
        name: "orig -> dest".to_string(),
        duration_ms: 7,
        status,
    };
    match git_mirror::report::record_for(&outcome) {
        git_mirror::report::ReportRecord::Error { kind, detail, .. } => {
            assert_eq!(kind, "sync error");
            assert_eq!(
                detail,
                "Git command execution failed: Command git push -f --mirror dest \
                 failed with exit code: 1, Stderr: remote rejected"
            );
        }
        other => panic!("expected an error record, got {:?}", other),
    }
}

#[test]
fn timeout_counts_as_timeout() {
    let mut opts = options("m");
    opts.git_timeout = Some(1);
    let entries = vec![mirror_entry("orig", "dest", false)];
    let events = vec![vec![
        ok_command(),
        JobEvent::Path(PathKind::Missing),
        JobEvent::Command(Err(CommandExecutionError::TimeoutReachedError(1))),
    ]];
    let report = run_sync_task(&entries, "label", &opts, events).unwrap();
    match &report.records[0].status {
        JobStatus::SyncError(GitMirrorError::GitError(GitError::GitCommandTimeout {
            timeout,
            ..
        })) => {
            assert_eq!(*timeout, 1);
        }
        other => panic!("expected a timeout, got {:?}", other),
    }
    let c = report.counters();
    assert_eq!(c.timeout, 1);
    assert_eq!(c.fail, 0);
}

#[test]
fn empty_run() {
    let opts = options("m");
    let entries: Vec<MirrorResult> = vec![];
    let report = run_sync_task(&entries, "label", &opts, vec![]).unwrap();
    assert_eq!(report.records.len(), 0);
    let c = report.counters();
    assert_eq!(c.total, 0);
    assert_eq!(c.ok + c.fail + c.timeout + c.skip + c.parse_error, 0);
}

#[test]
fn all_skips() {
    let opts = options("m");
    let entries: Vec<MirrorResult> = vec![
        Err(MirrorError::Skip("https://forge/a".to_string())),
        Err(MirrorError::Skip("https://forge/b".to_string())),
        Err(MirrorError::Skip("https://forge/c".to_string())),
    ];
    let report = run_sync_task(&entries, "label", &opts, vec![vec![], vec![], vec![]]).unwrap();
    assert_eq!(report.records.len(), 3);
    for record in &report.records {
        assert!(matches!(record.status, JobStatus::Skipped(_)));
    }
    let c = report.counters();
    assert_eq!(c.ok, 0);
    assert_eq!(c.skip, 3);
    assert_eq!(c.fail, 0);
    assert_eq!(report.sync_error_count(), 0);
}

#[test]
fn dry_run_no_side_effects() {
    let mut opts = options("m");
    opts.dry_run = true;
    let entry = mirror_entry("orig", "dest", true);
    let state = job_start(&entry, &opts);
    match job_action(&state) {
        JobAction::Finish(status) => assert_eq!(*status, JobStatus::Success),
        _ => panic!("a dry run must finish at once, without any action"),
    }
    let status = run_job(&entry, &opts, vec![]).unwrap();
    assert_eq!(status, JobStatus::Success);
}

#[test]
fn metric_families_group_parse_errors_with_skips() {
    let opts = options("m");
    let entries: Vec<MirrorResult> = vec![
        Err(MirrorError::Skip("https://forge/s".to_string())),
        Err(MirrorError::Description("https://forge/d".to_string(), "bad".to_string())),
    ];
    let report = run_sync_task(&entries, "label", &opts, vec![vec![], vec![]]).unwrap();
    let families = report.metric_families();
    assert_eq!(
        families,
        vec![
            ("git_mirror_total".to_string(), 2),
            ("git_mirror_skip".to_string(), 2),
            ("git_mirror_fail".to_string(), 0),
            ("git_mirror_timeout".to_string(), 0),
            ("git_mirror_ok".to_string(), 0),
        ]
    );
}

#[test]
fn counters_balance_on_mixed_run() {
    let opts = options("m");
    let entries: Vec<MirrorResult> = vec![
        mirror_entry("a", "b", false),
        Err(MirrorError::Skip("https://forge/s".to_string())),
        Err(MirrorError::Description("https://forge/d".to_string(), "bad".to_string())),
        mirror_entry("c", "d", false),
    ];
    let events = vec![
        vec![
            ok_command(),
            JobEvent::Path(PathKind::Missing),
            ok_command(),
            ok_command(),
        ],
        vec![],
        vec![],
        vec![
            ok_command(),
            JobEvent::Path(PathKind::Missing),
            failed_command(128, "no such repository"),
        ],
    ];
    let report = run_sync_task(&entries, "label", &opts, events).unwrap();
    let c = report.counters();
    assert_eq!(c.total, 4);
    assert_eq!(c.ok, 1);
    assert_eq!(c.skip, 1);
    assert_eq!(c.parse_error, 1);
    assert_eq!(c.fail, 1);
    assert_eq!(c.ok + c.fail + c.timeout + c.skip + c.parse_error, c.total);
    assert_eq!(report.sync_error_count(), 1);
}

#[test]
fn lfs_job_runs_all_lfs_steps() {
    let mut opts = options("m");
    opts.mirror_lfs = true;
    let entry = mirror_entry("orig", "dest", true);
    let state = job_start(&entry, &opts);
    // Probe: version, then the large-file version.
    let cmd = match job_action(&state) {
        JobAction::RunCommand(c) => c.args.clone(),
        _ => panic!("expected a command"),
    };
    assert_eq!(cmd, ["--version"]);
    let state = job_step(state, ok_command());
    let cmd = match job_action(&state) {
        JobAction::RunCommand(c) => c.args.clone(),
        _ => panic!("expected a command"),
    };
    assert_eq!(cmd, ["lfs", "version"]);
    let state = job_step(state, ok_command());
    let state = job_step(state, JobEvent::Path(PathKind::Missing));
    // Sync: clone, large-file fetch, large-file install, push.
    let expected: [&[&str]; 4] = [
        &["clone", "--mirror", "orig", "m/orig"],
        &["lfs", "fetch"],
        &["lfs", "install"],
        &["-c", "lfs.url=dest", "push", "-f", "--mirror", "dest"],
    ];
    let mut state = state;
    for args in expected {
        match job_action(&state) {
            JobAction::RunCommand(c) => assert_eq!(c.args, args),
            _ => panic!("expected a command"),
        }
        state = job_step(state, ok_command());
    }
    match job_action(&state) {
        JobAction::Finish(status) => assert_eq!(*status, JobStatus::Success),
        _ => panic!("expected the job to be done"),
    }
}

#[test]
fn missing_events_yield_nothing() {
    let opts = options("m");
    let entries = vec![mirror_entry("orig", "dest", false)];
    // The probe answer alone does not finish the job.
    let events = vec![vec![ok_command()]];
    assert!(run_sync_task(&entries, "label", &opts, events).is_none());
}

#[test]
fn clone_then_update() {
    let opts = options("m");
    let entry = mirror_entry("orig", "dest", false);

    // First run: the working directory does not exist yet, so the job
    // clones.
    let state = job_start(&entry, &opts);
    let state = job_step(state, ok_command());
    let state = job_step(state, JobEvent::Path(PathKind::Missing));
    let first_cmd = match job_action(&state) {
        JobAction::RunCommand(c) => c.args.clone(),
        _ => panic!("expected a command"),
    };
    assert_eq!(first_cmd, ["clone", "--mirror", "orig", "m/orig"]);
    let state = job_step(state, ok_command());
    let state = job_step(state, ok_command());
    match job_action(&state) {
        JobAction::Finish(status) => assert_eq!(*status, JobStatus::Success),
        _ => panic!("expected the job to be done"),
    }

    // Second run: the directory now exists, so the job updates in place.
    let state = job_start(&entry, &opts);
    let state = job_step(state, ok_command());
    let state = job_step(state, JobEvent::Path(PathKind::Directory));
    let first_cmd = match job_action(&state) {
        JobAction::RunCommand(c) => c.args.clone(),
        _ => panic!("expected a command"),
    };
    assert_eq!(first_cmd, ["remote", "set-url", "origin", "orig"]);
    let state = job_step(state, ok_command());
    let state = job_step(state, ok_command());
    let state = job_step(state, ok_command());
    match job_action(&state) {
        JobAction::Finish(status) => assert_eq!(*status, JobStatus::Success),
        _ => panic!("expected the job to be done"),
    }
}

#[test]
fn workdir_occupied_by_file() {
    let opts = options("m");
    let entry = mirror_entry("orig", "dest", false);
    let state = job_start(&entry, &opts);
    let state = job_step(state, ok_command());
    let state = job_step(state, JobEvent::Path(PathKind::File));
    match job_action(&state) {
        JobAction::Finish(JobStatus::SyncError(GitMirrorError::GenericError(msg))) => {
            assert_eq!(msg, "Local origin dir is a file: m/orig");
        }
        _ => panic!("expected a generic error"),
    }
}

#[test]
fn remove_workrepo_cleanup() {
    let mut opts = options("m");
    opts.remove_workrepo = true;
    let entry = mirror_entry("orig", "dest", false);
    let state = job_start(&entry, &opts);
    let state = job_step(state, ok_command());
    let state = job_step(state, JobEvent::Path(PathKind::Missing));
    let state = job_step(state, ok_command());
    let state = job_step(state, ok_command());
    match job_action(&state) {
        JobAction::RemoveDir(path) => assert_eq!(path, "m/orig"),
        _ => panic!("expected the cleanup request"),
    }
    let state = job_step(state, JobEvent::Removal(Ok(())));
    match job_action(&state) {
        JobAction::Finish(status) => assert_eq!(*status, JobStatus::Success),
        _ => panic!("expected the job to be done"),
    }
}

#[test]
fn cleanup_failure_is_sync_error() {
    let mut opts = options("m");
    opts.remove_workrepo = true;
    let entry = mirror_entry("orig", "dest", false);
    let events = vec![
        ok_command(),
        JobEvent::Path(PathKind::Missing),
        ok_command(),
        ok_command(),
        JobEvent::Removal(Err("permission denied".to_string())),
    ];
    let status = run_job(&entry, &opts, events).unwrap();
    match status {
        JobStatus::SyncError(GitMirrorError::GenericError(msg)) => {
            assert_eq!(
                msg,
                "Unable to delete working repository: m/orig because of error: permission denied"
            );
        }
        other => panic!("expected a generic error, got {:?}", other),
    }
}

#[test]
fn probe_failure_fails_job() {
    let opts = options("m");
    let entry = mirror_entry("orig", "dest", false);
    let events = vec![JobEvent::Command(Err(CommandExecutionError::SystemIOError(
        "No such file or directory".to_string(),
    )))];
    let status = run_job(&entry, &opts, events).unwrap();
    match status {
        JobStatus::SyncError(GitMirrorError::GitError(GitError::CommandError {
            cmd_str,
            err,
        })) => {
            assert_eq!(cmd_str, "git --version");
            assert_eq!(err, "No such file or directory");
        }
        other => panic!("expected a spawn failure, got {:?}", other),
    }
    let report = RunReport::new("label".to_string());
    assert_eq!(report.records.len(), 0);
}

#[test]
fn per_job_refspec_wins_over_default() {
    let mut opts = options("m");
    opts.refspec = Some(vec!["+refs/heads/main:refs/heads/main".to_string()]);
    let entry: MirrorResult = Ok(Mirror {
        origin: "orig".to_string(),
        destination: "dest".to_string(),
        refspec: Some(vec!["+refs/tags/*:refs/tags/*".to_string()]),
        lfs: false,
    });
    let state = job_start(&entry, &opts);
    let state = job_step(state, ok_command());
    let state = job_step(state, JobEvent::Path(PathKind::Missing));
    let state = job_step(state, ok_command());
    let push_args = match job_action(&state) {
        JobAction::RunCommand(c) => c.args.clone(),
        _ => panic!("expected the push command"),
    };
    assert_eq!(
        push_args,
        ["-c", "lfs.url=dest", "push", "-f", "dest", "+refs/tags/*:refs/tags/*"]
    );
}
