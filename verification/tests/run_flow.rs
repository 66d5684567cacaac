use git_mirror::error::GitMirrorError;
use git_mirror::git::{CommandExecutionError, CommandOutput, GitError};
use git_mirror::provider::MirrorError;
use git_mirror::flow::{do_mirror, flow_action, flow_step, FlowAction, FlowEvent, FlowState};
use git_mirror::git::{Git, GitWrapper};
use git_mirror::provider::MirrorResult;
use git_mirror::report::{JobOutcome, JobStatus, RunReport};
use git_mirror::MirrorOptions;

fn options(mirror_dir: &str, fail_on_sync_error: bool) -> MirrorOptions {
    MirrorOptions {
        mirror_dir: mirror_dir.to_string(),
        dry_run: false,
        metrics_file: None,
        junit_file: None,
        worker_count: 1,
        git_executable: "git".to_string(),
        refspec: None,
        remove_workrepo: false,
        fail_on_sync_error,
        mirror_lfs: false,
        git_timeout: None,
    }
}

fn report_with(statuses: Vec<JobStatus>) -> RunReport {
    let mut report = RunReport::new("label".to_string());
    for status in statuses {
        report.push_outcome(JobOutcome { name: "n".to_string(), duration_ms: 0, status });
    }
    report
}

#[test]
fn lock_contention_stops_the_run() {
    let opts = options("shared", false);
    let state = do_mirror(&opts);
    let state = flow_step(state, FlowEvent::DirCreated(Ok(())), &opts);
    match flow_action(&state, &opts) {
        FlowAction::AcquireLock(path) => assert_eq!(path, "shared/git-mirror.lock"),
        _ => panic!("expected the lock request"),
    }
    let state = flow_step(
        state,
        FlowEvent::Locked(Err("Resource temporarily unavailable".to_string())),
        &opts,
    );
    match flow_action(&state, &opts) {
        FlowAction::Exit(Err(GitMirrorError::GenericError(msg))) => {
            assert_eq!(
                msg,
                "Another instance is already running against the same mirror directory: \
                 shared (Resource temporarily unavailable)"
            );
        }
        _ => panic!("the second engine must exit at once"),
    }
}

#[test]
fn first_engine_proceeds() {
    let opts = options("shared", false);
    let state = do_mirror(&opts);
    let state = flow_step(state, FlowEvent::DirCreated(Ok(())), &opts);
    let state = flow_step(state, FlowEvent::Locked(Ok(())), &opts);
    assert!(matches!(flow_action(&state, &opts), FlowAction::Enumerate));
}

#[test]
fn dir_creation_failure_is_generic() {
    let opts = options("m", false);
    let state = do_mirror(&opts);
    let state = flow_step(
        state,
        FlowEvent::DirCreated(Err("permission denied".to_string())),
        &opts,
    );
    match flow_action(&state, &opts) {
        FlowAction::Exit(Err(e)) => {
            assert_eq!(
                e.message(),
                "Generic Mirror error: Unable to create mirror dir: m (permission denied)"
            );
            assert_eq!(i32::from(e.clone()), 2);
        }
        _ => panic!("expected the run to exit"),
    }
}

#[test]
fn enumeration_failure_is_generic() {
    let opts = options("m", false);
    let state = do_mirror(&opts);
    let state = flow_step(state, FlowEvent::DirCreated(Ok(())), &opts);
    let state = flow_step(state, FlowEvent::Locked(Ok(())), &opts);
    let state = flow_step(
        state,
        FlowEvent::Enumerated(Err("boom".to_string())),
        &opts,
    );
    match flow_action(&state, &opts) {
        FlowAction::Exit(Err(GitMirrorError::GenericError(msg))) => {
            assert_eq!(msg, "Unable to get mirror repos (boom)");
        }
        _ => panic!("expected the run to exit"),
    }
}

#[test]
fn failures_set_exit_only_when_asked() {
    let failing = || {
        report_with(vec![
            JobStatus::Success,
            JobStatus::SyncError(GitMirrorError::GenericError("x".to_string())),
        ])
    };
    // Without the option the run still exits successfully.
    let opts = options("m", false);
    let entries: Vec<MirrorResult> = vec![];
    let state = FlowState::Running { entries };
    let state = flow_step(state, FlowEvent::JobsDone(failing()), &opts);
    let state = flow_step(state, FlowEvent::ArtifactsWritten, &opts);
    assert!(matches!(flow_action(&state, &opts), FlowAction::Exit(Ok(()))));

    // With the option the run fails, counting the failed tasks.
    let opts = options("m", true);
    let entries: Vec<MirrorResult> = vec![];
    let state = FlowState::Running { entries };
    let state = flow_step(state, FlowEvent::JobsDone(failing()), &opts);
    let state = flow_step(state, FlowEvent::ArtifactsWritten, &opts);
    match flow_action(&state, &opts) {
        FlowAction::Exit(Err(e)) => {
            assert_eq!(*e, GitMirrorError::SyncError(1));
            assert_eq!(e.message(), "1 sync tasks failed");
            assert_eq!(i32::from(e.clone()), 1);
        }
        _ => panic!("expected the run to fail"),
    }
}

#[test]
fn skips_and_parse_errors_do_not_fail_the_run() {
    let opts = options("m", true);
    let report = report_with(vec![
        JobStatus::Skipped("https://forge/a".to_string()),
        JobStatus::ParseError("https://forge/b".to_string(), "bad".to_string()),
    ]);
    let entries: Vec<MirrorResult> = vec![];
    let state = FlowState::Running { entries };
    let state = flow_step(state, FlowEvent::JobsDone(report), &opts);
    let state = flow_step(state, FlowEvent::ArtifactsWritten, &opts);
    assert!(matches!(flow_action(&state, &opts), FlowAction::Exit(Ok(()))));
}

#[test]
fn exit_codes() {
    assert_eq!(i32::from(GitMirrorError::SyncError(3)), 1);
    assert_eq!(i32::from(GitMirrorError::GenericError("x".to_string())), 2);
    assert_eq!(
        i32::from(GitMirrorError::GitError(GitError::CommandError {
            cmd_str: "git".to_string(),
            err: "x".to_string(),
        })),
        3
    );
    assert_eq!(
        i32::from(GitMirrorError::MirrorError(MirrorError::Skip("u".to_string()))),
        4
    );
}

#[test]
fn git_plans() {
    let git = Git::new("git".to_string(), true, Some(30));
    assert_eq!(git.timeout(), Some(30));

    let version = git.git_version();
    assert_eq!(version.len(), 1);
    assert_eq!(version[0].args, ["--version"]);
    assert_eq!(version[0].cwd, None);
    assert_eq!(version[0].render(), "git --version");

    let lfs_version = git.git_lfs_version();
    assert_eq!(lfs_version[0].args, ["lfs", "version"]);

    let clone = git.git_clone_mirror("o", "d", true);
    assert_eq!(clone.len(), 2);
    assert_eq!(clone[0].args, ["clone", "--mirror", "o", "d"]);
    assert_eq!(clone[0].cwd, None);
    assert_eq!(clone[1].args, ["lfs", "fetch"]);
    assert_eq!(clone[1].cwd, Some("d".to_string()));

    let clone_plain = git.git_clone_mirror("o", "d", false);
    assert_eq!(clone_plain.len(), 1);

    let update = git.git_update_mirror("o", "d", false);
    assert_eq!(update.len(), 2);
    assert_eq!(update[0].args, ["remote", "set-url", "origin", "o"]);
    assert_eq!(update[0].cwd, Some("d".to_string()));
    assert_eq!(update[1].args, ["remote", "update", "--prune"]);

    let push = git.git_push_mirror("dest", "d", &None, true);
    assert_eq!(push.len(), 2);
    assert_eq!(push[0].args, ["lfs", "install"]);
    assert_eq!(push[1].args, ["-c", "lfs.url=dest", "push", "-f", "--mirror", "dest"]);

    let specs = Some(vec!["a:b".to_string(), "c:d".to_string()]);
    let push_spec = git.git_push_mirror("dest", "d", &specs, false);
    assert_eq!(push_spec.len(), 1);
    assert_eq!(
        push_spec[0].args,
        ["-c", "lfs.url=dest", "push", "-f", "dest", "a:b", "c:d"]
    );
}

#[test]
fn decimal_rendering() {
    assert_eq!(git_mirror::numfmt::u64_to_dec(0), "0");
    assert_eq!(git_mirror::numfmt::u64_to_dec(7), "7");
    assert_eq!(git_mirror::numfmt::u64_to_dec(100), "100");
    assert_eq!(git_mirror::numfmt::u64_to_dec(18446744073709551615), "18446744073709551615");
    assert_eq!(git_mirror::numfmt::i32_to_dec(-128), "-128");
    assert_eq!(git_mirror::numfmt::i32_to_dec(2147483647), "2147483647");
    assert_eq!(git_mirror::numfmt::i32_to_dec(-2147483648), "-2147483648");
}

#[test]
fn command_outcome_classifies() {
    let git = Git::new("git".to_string(), false, None);
    let cmd = &git.git_version()[0];
    assert_eq!(
        git.command_outcome(cmd, Ok(CommandOutput { success: true, code: 0, stderr: String::new() })),
        Ok(())
    );
    assert_eq!(
        git.command_outcome(
            cmd,
            Ok(CommandOutput { success: false, code: 9, stderr: "boom".to_string() }),
        ),
        Err(GitError::GitCommandError {
            code: 9,
            stderr: "boom".to_string(),
            cmd_str: "git --version".to_string(),
        })
    );
    assert_eq!(
        git.command_outcome(cmd, Err(CommandExecutionError::TimeoutReachedError(5))),
        Err(GitError::GitCommandTimeout { cmd_str: "git --version".to_string(), timeout: 5 })
    );
    assert_eq!(
        git.command_outcome(
            cmd,
            Err(CommandExecutionError::SystemIOError("no git".to_string())),
        ),
        Err(GitError::CommandError { cmd_str: "git --version".to_string(), err: "no git".to_string() })
    );
}

#[test]
fn terminal_prompt_pair() {
    let (key, value) = git_mirror::git::terminal_prompt_env();
    assert_eq!(key, "GIT_TERMINAL_PROMPT");
    assert_eq!(value, "0");
}

#[test]
fn timestamp_family_names_match_the_interface() {
    let names = git_mirror::report::timestamp_family_names();
    assert_eq!(
        names,
        vec![
            "git_mirror_project_start".to_string(),
            "git_mirror_project_end".to_string(),
            "git_mirror_start_time".to_string(),
            "git_mirror_end_time".to_string(),
        ]
    );
}

#[test]
fn parse_error_message_names_the_cause() {
    let e = GitMirrorError::MirrorError(MirrorError::Description(
        "https://forge/p".to_string(),
        "bad yaml".to_string(),
    ));
    assert_eq!(
        e.message(),
        "Mirror extraction failed: could not parse project description: bad yaml"
    );
}

#[test]
fn suite_name_is_sync_job() {
    assert_eq!(git_mirror::report::suite_name(), "Sync Job");
    assert!(git_mirror::provider::bool_true());
}
