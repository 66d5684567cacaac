//! Command plans and result classification for the external git backend.
//!
//! The library never spawns a process. Each git operation is described as a
//! sequence of [`GitCommand`] values; a driver runs them in order, stopping
//! at the first failure, and reports what happened as a [`CommandResult`].
//! [`Git::command_outcome`] turns that observation into the operation's
//! verdict.

use vstd::prelude::*;

verus! {

/// One invocation of the git executable.
///
/// The driver must run `program` with `args`, in `cwd` when one is given,
/// and with the environment pair of [`terminal_prompt_env`] set, so that
/// no invocation blocks on an interactive credential prompt.
#[derive(Debug, Clone, PartialEq, Eq)]
pub struct GitCommand {
    pub program: String,
    pub args: Vec<String>,
    pub cwd: Option<String>,
}

/// The mathematical model of a [`GitCommand`]: every string as a character
/// sequence.
#[verifier::ext_equal]
pub struct CmdView {
    pub program: Seq<char>,
    pub args: Seq<Seq<char>>,
    pub cwd: Option<Seq<char>>,
}

impl View for GitCommand {
    type V = CmdView;

    open spec fn view(&self) -> CmdView {
        CmdView { program: self.program@, args: self.args.deep_view(), cwd: self.cwd.deep_view() }
    }
}

impl DeepView for GitCommand {
    type V = CmdView;

    open spec fn deep_view(&self) -> CmdView {
        self.view()
    }
}

/// The textual rendering of a command's arguments: each argument preceded
/// by one space.
pub open spec fn rendered_args(args: Seq<Seq<char>>) -> Seq<char>
    decreases args.len(),
{
    if args.len() == 0 {
        Seq::empty()
    } else {
        rendered_args(args.drop_last()) + seq![' '] + args.last()
    }
}

/// The textual rendering of a whole command, used in error messages.
pub open spec fn rendered_cmd(c: CmdView) -> Seq<char> {
    c.program + rendered_args(c.args)
}

impl GitCommand {
    /// The command as one line of text: the program followed by each
    /// argument, separated by single spaces.
    pub fn render(&self) -> (r: String)
        ensures
            r@ == rendered_cmd(self@),
    {
        let mut s = self.program.clone();
        proof {
            reveal_strlit(" ");
            assert(" "@ =~= seq![' ']);
            assert(self.program@ + rendered_args(self.args.deep_view().take(0int)) =~= self.program@);
        }
        let mut i: usize = 0;
        while i < self.args.len()
            invariant
                i <= self.args.len(),
                s@ == self.program@ + rendered_args(self.args.deep_view().take(i as int)),
            decreases self.args.len() - i,
        {
            s.append(" ");
            s.append(self.args[i].as_str());
            proof {
                reveal_strlit(" ");
                assert(" "@ =~= seq![' ']);
                let pre = self.args.deep_view().take(i as int);
                let cur = self.args.deep_view().take(i + 1int);
                assert(cur.drop_last() =~= pre);
                assert(cur.last() == self.args.deep_view()[i as int]);
                assert(s@ =~= self.program@ + rendered_args(cur));
            }
            i = i + 1;
        }
        proof {
            assert(self.args.deep_view().take(self.args.len() as int) =~= self.args.deep_view());
        }
        s
    }
}

/// The environment pair every planned command runs with: it disables
/// git's interactive credential prompt, which would otherwise block the
/// pipeline. The child inherits the rest of the parent environment.
pub fn terminal_prompt_env() -> (r: (String, String))
    ensures
        r.0@ == "GIT_TERMINAL_PROMPT"@,
        r.1@ == "0"@,
{
    (String::from_str("GIT_TERMINAL_PROMPT"), String::from_str("0"))
}

/// A failure to obtain a completed child process.
#[derive(Debug, Clone, PartialEq, Eq)]
pub enum CommandExecutionError {
    /// The operating system could not start or wait on the child; carries
    /// the OS error text.
    SystemIOError(String),
    /// The configured bound, in seconds, elapsed before the child
    /// completed, and the child was killed.
    TimeoutReachedError(u64),
}

/// The model of a [`CommandExecutionError`].
pub enum CmdExecErrView {
    SystemIOError(Seq<char>),
    TimeoutReachedError(u64),
}

impl View for CommandExecutionError {
    type V = CmdExecErrView;

    open spec fn view(&self) -> CmdExecErrView {
        match self {
            CommandExecutionError::SystemIOError(err) => CmdExecErrView::SystemIOError(err@),
            CommandExecutionError::TimeoutReachedError(t) => CmdExecErrView::TimeoutReachedError(
                *t,
            ),
        }
    }
}

/// What the driver observed of one completed child process.
#[derive(Debug, Clone, PartialEq, Eq)]
pub struct CommandOutput {
    /// Whether the child's exit status reported success.
    pub success: bool,
    /// The exit code, with 0 standing in where none exists.
    pub code: i32,
    /// The captured standard error text.
    pub stderr: String,
}

/// The model of a [`CommandOutput`].
pub struct CommandOutputView {
    pub success: bool,
    pub code: i32,
    pub stderr: Seq<char>,
}

impl View for CommandOutput {
    type V = CommandOutputView;

    open spec fn view(&self) -> CommandOutputView {
        CommandOutputView { success: self.success, code: self.code, stderr: self.stderr@ }
    }
}

/// The driver's report on one attempted command.
pub type CommandResult = core::result::Result<CommandOutput, CommandExecutionError>;

/// The model of a [`CommandResult`].
pub open spec fn observed_view(observed: CommandResult) -> core::result::Result<
    CommandOutputView,
    CmdExecErrView,
> {
    match observed {
        Ok(o) => Ok(o@),
        Err(e) => Err(e@),
    }
}

/// An error from one git invocation.
#[derive(Debug, Clone, PartialEq, Eq)]
pub enum GitError {
    /// The child could not be run at all.
    CommandError { cmd_str: String, err: String },
    /// The child exited unsuccessfully.
    GitCommandError { code: i32, stderr: String, cmd_str: String },
    /// The child was killed after running `timeout` seconds.
    GitCommandTimeout { cmd_str: String, timeout: u64 },
}

/// The model of a [`GitError`].
pub enum GitErrorView {
    CommandError { cmd_str: Seq<char>, err: Seq<char> },
    GitCommandError { code: i32, stderr: Seq<char>, cmd_str: Seq<char> },
    GitCommandTimeout { cmd_str: Seq<char>, timeout: u64 },
}

impl View for GitError {
    type V = GitErrorView;

    open spec fn view(&self) -> GitErrorView {
        match self {
            GitError::CommandError { cmd_str, err } => GitErrorView::CommandError {
                cmd_str: cmd_str@,
                err: err@,
            },
            GitError::GitCommandError { code, stderr, cmd_str } => GitErrorView::GitCommandError {
                code: *code,
                stderr: stderr@,
                cmd_str: cmd_str@,
            },
            GitError::GitCommandTimeout { cmd_str, timeout } => GitErrorView::GitCommandTimeout {
                cmd_str: cmd_str@,
                timeout: *timeout,
            },
        }
    }
}

impl DeepView for GitError {
    type V = GitErrorView;

    open spec fn deep_view(&self) -> GitErrorView {
        self.view()
    }
}

/// The one-line description of a [`GitError`].
pub open spec fn git_error_message(e: GitErrorView) -> Seq<char> {
    match e {
        GitErrorView::CommandError { cmd_str, err } => "Command "@ + cmd_str
            + " failed with system error: "@ + err,
        GitErrorView::GitCommandError { code, stderr, cmd_str } => "Command "@ + cmd_str
            + " failed with exit code: "@ + crate::numfmt::dec_int(code as int) + ", Stderr: "@
            + stderr,
        GitErrorView::GitCommandTimeout { cmd_str, timeout } => "Command "@ + cmd_str
            + " timed out after "@ + crate::numfmt::dec_nat(timeout as nat) + "s"@,
    }
}

impl GitError {
    /// Renders the error as one line of text.
    pub fn message(&self) -> (r: String)
        ensures
            r@ == git_error_message(self@),
    {
        match self {
            GitError::CommandError { cmd_str, err } => {
                let mut s = String::from_str("Command ");
                s.append(cmd_str.as_str());
                s.append(" failed with system error: ");
                s.append(err.as_str());
                s
            },
            GitError::GitCommandError { code, stderr, cmd_str } => {
                let mut s = String::from_str("Command ");
                s.append(cmd_str.as_str());
                s.append(" failed with exit code: ");
                s.append(crate::numfmt::i32_to_dec(*code).as_str());
                s.append(", Stderr: ");
                s.append(stderr.as_str());
                s
            },
            GitError::GitCommandTimeout { cmd_str, timeout } => {
                let mut s = String::from_str("Command ");
                s.append(cmd_str.as_str());
                s.append(" timed out after ");
                s.append(crate::numfmt::u64_to_dec(*timeout).as_str());
                s.append("s");
                s
            },
        }
    }
}

impl From<(CommandExecutionError, String)> for GitError {
    fn from(value: (CommandExecutionError, String)) -> (r: GitError) {
        match value {
            (CommandExecutionError::SystemIOError(err), cmd_str) => {
                GitError::CommandError { cmd_str, err }
            },
            (CommandExecutionError::TimeoutReachedError(timeout), cmd_str) => {
                GitError::GitCommandTimeout { cmd_str, timeout }
            },
        }
    }
}

impl vstd::std_specs::convert::FromSpecImpl<(CommandExecutionError, String)> for GitError {
    open spec fn obeys_from_spec() -> bool {
        true
    }

    open spec fn from_spec(value: (CommandExecutionError, String)) -> GitError {
        match value {
            (CommandExecutionError::SystemIOError(err), cmd_str) => {
                GitError::CommandError { cmd_str, err }
            },
            (CommandExecutionError::TimeoutReachedError(timeout), cmd_str) => {
                GitError::GitCommandTimeout { cmd_str, timeout }
            },
        }
    }
}

/// The command that probes the git version.
pub open spec fn version_cmd(exe: Seq<char>) -> CmdView {
    CmdView { program: exe, args: seq!["--version"@], cwd: None }
}

/// The command that probes the git large-file extension's version.
pub open spec fn lfs_version_cmd(exe: Seq<char>) -> CmdView {
    CmdView { program: exe, args: seq!["lfs"@, "version"@], cwd: None }
}

/// The command that clones `origin` as a bare mirror into `dir`.
pub open spec fn clone_cmd(exe: Seq<char>, origin: Seq<char>, dir: Seq<char>) -> CmdView {
    CmdView { program: exe, args: seq!["clone"@, "--mirror"@, origin, dir], cwd: None }
}

/// The command that fetches large-file content inside `dir`.
pub open spec fn lfs_fetch_cmd(exe: Seq<char>, dir: Seq<char>) -> CmdView {
    CmdView { program: exe, args: seq!["lfs"@, "fetch"@], cwd: Some(dir) }
}

/// The command that points the `origin` remote of `dir` at `origin`.
pub open spec fn set_url_cmd(exe: Seq<char>, origin: Seq<char>, dir: Seq<char>) -> CmdView {
    CmdView { program: exe, args: seq!["remote"@, "set-url"@, "origin"@, origin], cwd: Some(dir) }
}

/// The command that updates all remote refs of `dir`, pruning gone ones.
pub open spec fn remote_update_cmd(exe: Seq<char>, dir: Seq<char>) -> CmdView {
    CmdView { program: exe, args: seq!["remote"@, "update"@, "--prune"@], cwd: Some(dir) }
}

/// The command that installs the large-file hooks inside `dir`.
pub open spec fn lfs_install_cmd(exe: Seq<char>, dir: Seq<char>) -> CmdView {
    CmdView { program: exe, args: seq!["lfs"@, "install"@], cwd: Some(dir) }
}

/// The command that force-pushes `dir` to `dest`: with `refspec` given,
/// each listed ref; otherwise everything, as `--mirror`. The large-file
/// destination is pinned to `dest` so that an in-repo configuration cannot
/// divert it.
pub open spec fn push_cmd(
    exe: Seq<char>,
    dest: Seq<char>,
    dir: Seq<char>,
    refspec: Option<Seq<Seq<char>>>,
) -> CmdView {
    CmdView {
        program: exe,
        args: seq!["-c"@, "lfs.url="@ + dest, "push"@, "-f"@] + (match refspec {
            Some(specs) => seq![dest] + specs,
            None => seq!["--mirror"@, dest],
        }),
        cwd: Some(dir),
    }
}

/// The probe plan: the version command, and the large-file version command
/// when the backend mirrors large files.
pub open spec fn version_plan(exe: Seq<char>) -> Seq<CmdView> {
    seq![version_cmd(exe)]
}

/// The clone plan: clone, then fetch large files when both the backend and
/// the job ask for them.
pub open spec fn clone_plan(
    lfs_enabled: bool,
    exe: Seq<char>,
    origin: Seq<char>,
    dir: Seq<char>,
    lfs: bool,
) -> Seq<CmdView> {
    if lfs_enabled && lfs {
        seq![clone_cmd(exe, origin, dir), lfs_fetch_cmd(exe, dir)]
    } else {
        seq![clone_cmd(exe, origin, dir)]
    }
}

/// The update plan: re-point the remote (the origin URL may have drifted
/// since the clone), update with pruning, then the optional large-file
/// fetch.
pub open spec fn update_plan(
    lfs_enabled: bool,
    exe: Seq<char>,
    origin: Seq<char>,
    dir: Seq<char>,
    lfs: bool,
) -> Seq<CmdView> {
    if lfs_enabled && lfs {
        seq![
            set_url_cmd(exe, origin, dir),
            remote_update_cmd(exe, dir),
            lfs_fetch_cmd(exe, dir),
        ]
    } else {
        seq![set_url_cmd(exe, origin, dir), remote_update_cmd(exe, dir)]
    }
}

/// The push plan: the optional large-file installation, then the single
/// force-push.
pub open spec fn push_plan(
    lfs_enabled: bool,
    exe: Seq<char>,
    dest: Seq<char>,
    dir: Seq<char>,
    refspec: Option<Seq<Seq<char>>>,
    lfs: bool,
) -> Seq<CmdView> {
    if lfs_enabled && lfs {
        seq![lfs_install_cmd(exe, dir), push_cmd(exe, dest, dir, refspec)]
    } else {
        seq![push_cmd(exe, dest, dir, refspec)]
    }
}

/// Common interface to different git backends. Each operation is exposed
/// as the exact sequence of commands it runs; the driver executes them in
/// order and stops at the first failure.
pub trait GitWrapper {
    /// The executable every command of this backend runs.
    spec fn exe_view(&self) -> Seq<char>;

    /// Whether this backend mirrors large-file content at all.
    spec fn lfs_on(&self) -> bool;

    /// The commands that probe the git version.
    fn git_version(&self) -> (r: Vec<GitCommand>)
        ensures
            r.deep_view() == version_plan(self.exe_view()),
    ;

    /// The commands that probe the large-file extension's version.
    fn git_lfs_version(&self) -> (r: Vec<GitCommand>)
        ensures
            r.deep_view() == seq![lfs_version_cmd(self.exe_view())],
    ;

    /// The commands that create the bare mirror of `origin` at `repo_dir`.
    fn git_clone_mirror(&self, origin: &str, repo_dir: &str, lfs: bool) -> (r: Vec<GitCommand>)
        ensures
            r.deep_view() == clone_plan(self.lfs_on(), self.exe_view(), origin@, repo_dir@, lfs),
    ;

    /// The commands that bring the existing mirror at `repo_dir` up to
    /// date with `origin`.
    fn git_update_mirror(&self, origin: &str, repo_dir: &str, lfs: bool) -> (r: Vec<GitCommand>)
        ensures
            r.deep_view() == update_plan(self.lfs_on(), self.exe_view(), origin@, repo_dir@, lfs),
    ;

    /// The commands that force-push the mirror at `repo_dir` to `dest`.
    fn git_push_mirror(
        &self,
        dest: &str,
        repo_dir: &str,
        refspec: &Option<Vec<String>>,
        lfs: bool,
    ) -> (r: Vec<GitCommand>)
        ensures
            r.deep_view() == push_plan(
                self.lfs_on(),
                self.exe_view(),
                dest@,
                repo_dir@,
                refspec.deep_view(),
                lfs,
            ),
    ;
}

/// Git command line backend: plans commands for one executable and
/// classifies what the driver observed.
pub struct Git {
    executable: String,
    lfs_enabled: bool,
    timeout: Option<u64>,
}

impl Git {
    pub fn new(executable: String, lfs_enabled: bool, timeout: Option<u64>) -> (g: Git)
        ensures
            g.exe_view() == executable@,
            g.lfs_on() == lfs_enabled,
            g.timeout_secs() == timeout,
    {
        Git { executable, lfs_enabled, timeout }
    }

    /// The per-invocation bound, in seconds, that the driver must apply,
    /// or `None` to block on each child.
    pub closed spec fn timeout_secs(&self) -> Option<u64> {
        self.timeout
    }

    /// Exposes the configured bound to the driver.
    pub fn timeout(&self) -> (r: Option<u64>)
        ensures
            r == self.timeout_secs(),
    {
        self.timeout
    }

    fn base_cmd(&self) -> (c: GitCommand)
        ensures
            c.program@ == self.executable@,
            c.args@.len() == 0,
            c.cwd is None,
    {
        GitCommand { program: self.executable.clone(), args: Vec::new(), cwd: None }
    }

    /// The operation's verdict from what the driver observed of one
    /// command: success exactly when the child exited successfully, and
    /// otherwise the error kind the observation dictates, each carrying
    /// the rendered command.
    pub fn command_outcome(&self, cmd: &GitCommand, observed: CommandResult) -> (r: core::result::Result<
        (),
        GitError,
    >)
        ensures
            (match r {
                Ok(u) => command_verdict(cmd@, observed_view(observed)) is Ok,
                Err(e) => command_verdict(cmd@, observed_view(observed)) == Err::<
                    (),
                    GitErrorView,
                >(e@),
            }),
    {
        let cmd_str = cmd.render();
        match observed {
            Ok(o) => {
                if o.success {
                    Ok(())
                } else {
                    Err(GitError::GitCommandError { code: o.code, stderr: o.stderr, cmd_str })
                }
            },
            Err(err) => Err(GitError::from((err, cmd_str))),
        }
    }
}

/// What [`Git::command_outcome`] returns for each observation.
pub open spec fn command_verdict(
    cmd: CmdView,
    observed: core::result::Result<CommandOutputView, CmdExecErrView>,
) -> core::result::Result<(), GitErrorView> {
    match observed {
        Ok(o) => {
            if o.success {
                Ok(())
            } else {
                Err(
                    GitErrorView::GitCommandError {
                        code: o.code,
                        stderr: o.stderr,
                        cmd_str: rendered_cmd(cmd),
                    },
                )
            }
        },
        Err(CmdExecErrView::SystemIOError(err)) => {
            Err(GitErrorView::CommandError { cmd_str: rendered_cmd(cmd), err })
        },
        Err(CmdExecErrView::TimeoutReachedError(timeout)) => {
            Err(GitErrorView::GitCommandTimeout { cmd_str: rendered_cmd(cmd), timeout })
        },
    }
}

impl GitWrapper for Git {
    closed spec fn exe_view(&self) -> Seq<char> {
        self.executable@
    }

    closed spec fn lfs_on(&self) -> bool {
        self.lfs_enabled
    }

    fn git_version(&self) -> (r: Vec<GitCommand>)
        ensures
            r.deep_view() == version_plan(self.exe_view()),
    {
        let mut c = self.base_cmd();
        c.args.push(String::from_str("--version"));
        proof {
            assert(c.args.deep_view() =~~= seq!["--version"@]);
            assert(c@ =~~= version_cmd(self.exe_view()));
        }
        let mut r: Vec<GitCommand> = Vec::new();
        r.push(c);
        proof {
            assert(r.deep_view() =~~= version_plan(self.exe_view()));
        }
        r
    }

    fn git_lfs_version(&self) -> (r: Vec<GitCommand>)
        ensures
            r.deep_view() == seq![lfs_version_cmd(self.exe_view())],
    {
        let mut c = self.base_cmd();
        c.args.push(String::from_str("lfs"));
        c.args.push(String::from_str("version"));
        proof {
            assert(c.args.deep_view() =~~= seq!["lfs"@, "version"@]);
            assert(c@ =~~= lfs_version_cmd(self.exe_view()));
        }
        let mut r: Vec<GitCommand> = Vec::new();
        r.push(c);
        proof {
            assert(r.deep_view() =~~= seq![lfs_version_cmd(self.exe_view())]);
        }
        r
    }

    fn git_clone_mirror(&self, origin: &str, repo_dir: &str, lfs: bool) -> (r: Vec<GitCommand>)
        ensures
            r.deep_view() == clone_plan(self.lfs_on(), self.exe_view(), origin@, repo_dir@, lfs),
    {
        let mut c = self.base_cmd();
        c.args.push(String::from_str("clone"));
        c.args.push(String::from_str("--mirror"));
        c.args.push(origin.to_owned());
        c.args.push(repo_dir.to_owned());
        proof {
            assert(c.args.deep_view() =~~= seq!["clone"@, "--mirror"@, origin@, repo_dir@]);
            assert(c@ =~~= clone_cmd(self.exe_view(), origin@, repo_dir@));
        }
        let mut r: Vec<GitCommand> = Vec::new();
        r.push(c);
        if self.lfs_enabled && lfs {
            r.push(self.lfs_fetch(repo_dir));
        }
        proof {
            assert(r.deep_view() =~~= clone_plan(
                self.lfs_on(),
                self.exe_view(),
                origin@,
                repo_dir@,
                lfs,
            ));
        }
        r
    }

    fn git_update_mirror(&self, origin: &str, repo_dir: &str, lfs: bool) -> (r: Vec<GitCommand>)
        ensures
            r.deep_view() == update_plan(self.lfs_on(), self.exe_view(), origin@, repo_dir@, lfs),
    {
        let mut set_url = self.base_cmd();
        set_url.cwd = Some(repo_dir.to_owned());
        set_url.args.push(String::from_str("remote"));
        set_url.args.push(String::from_str("set-url"));
        set_url.args.push(String::from_str("origin"));
        set_url.args.push(origin.to_owned());
        proof {
            assert(set_url.args.deep_view() =~~= seq!["remote"@, "set-url"@, "origin"@, origin@]);
            assert(set_url@ =~~= set_url_cmd(self.exe_view(), origin@, repo_dir@));
        }
        let mut update = self.base_cmd();
        update.cwd = Some(repo_dir.to_owned());
        update.args.push(String::from_str("remote"));
        update.args.push(String::from_str("update"));
        update.args.push(String::from_str("--prune"));
        proof {
            assert(update.args.deep_view() =~~= seq!["remote"@, "update"@, "--prune"@]);
            assert(update@ =~~= remote_update_cmd(self.exe_view(), repo_dir@));
        }
        let mut r: Vec<GitCommand> = Vec::new();
        r.push(set_url);
        r.push(update);
        if self.lfs_enabled && lfs {
            r.push(self.lfs_fetch(repo_dir));
        }
        proof {
            assert(r.deep_view() =~~= update_plan(
                self.lfs_on(),
                self.exe_view(),
                origin@,
                repo_dir@,
                lfs,
            ));
        }
        r
    }

    fn git_push_mirror(
        &self,
        dest: &str,
        repo_dir: &str,
        refspec: &Option<Vec<String>>,
        lfs: bool,
    ) -> (r: Vec<GitCommand>)
        ensures
            r.deep_view() == push_plan(
                self.lfs_on(),
                self.exe_view(),
                dest@,
                repo_dir@,
                refspec.deep_view(),
                lfs,
            ),
    {
        let mut r: Vec<GitCommand> = Vec::new();
        if self.lfs_enabled && lfs {
            let mut install = self.base_cmd();
            install.cwd = Some(repo_dir.to_owned());
            install.args.push(String::from_str("lfs"));
            install.args.push(String::from_str("install"));
            proof {
                assert(install.args.deep_view() =~~= seq!["lfs"@, "install"@]);
                assert(install@ =~~= lfs_install_cmd(self.exe_view(), repo_dir@));
            }
            r.push(install);
        }
        let mut push = self.base_cmd();
        push.cwd = Some(repo_dir.to_owned());
        push.args.push(String::from_str("-c"));
        push.args.push(String::from_str("lfs.url=").concat(dest));
        push.args.push(String::from_str("push"));
        push.args.push(String::from_str("-f"));
        let ghost base_args: Seq<Seq<char>> = seq!["-c"@, "lfs.url="@ + dest@, "push"@, "-f"@];
        proof {
            assert(push.args.deep_view() =~~= base_args);
        }
        match refspec {
            Some(specs) => {
                push.args.push(dest.to_owned());
                proof {
                    assert(push.args.deep_view() =~~= base_args.push(dest@) + specs.deep_view().take(
                        0int,
                    ));
                }
                let mut i: usize = 0;
                while i < specs.len()
                    invariant
                        i <= specs.len(),
                        push.args.deep_view() == base_args.push(dest@) + specs.deep_view().take(
                            i as int,
                        ),
                        push.program@ == self.executable@,
                        push.cwd.deep_view() == Some(repo_dir@),
                    decreases specs.len() - i,
                {
                    push.args.push(specs[i].clone());
                    proof {
                        assert(specs.deep_view().take(i + 1int) =~= specs.deep_view().take(
                            i as int,
                        ).push(specs.deep_view()[i as int]));
                        assert(push.args.deep_view() =~~= (base_args.push(dest@)
                            + specs.deep_view().take(i as int)).push(specs.deep_view()[i as int]));
                        assert((base_args.push(dest@) + specs.deep_view().take(i as int)).push(
                            specs.deep_view()[i as int],
                        ) =~= base_args.push(dest@) + specs.deep_view().take(i + 1int));
                    }
                    i = i + 1;
                }
                proof {
                    assert(specs.deep_view().take(specs.len() as int) =~= specs.deep_view());
                    assert(push.args.deep_view() =~~= base_args + (seq![dest@] + specs.deep_view()));
                    assert(push@ =~~= push_cmd(self.exe_view(), dest@, repo_dir@, refspec.deep_view()));
                }
            },
            None => {
                push.args.push(String::from_str("--mirror"));
                push.args.push(dest.to_owned());
                proof {
                    assert(push.args.deep_view() =~~= base_args + seq!["--mirror"@, dest@]);
                    assert(push@ =~~= push_cmd(self.exe_view(), dest@, repo_dir@, refspec.deep_view()));
                }
            },
        }
        r.push(push);
        proof {
            assert(r.deep_view() =~~= push_plan(
                self.lfs_on(),
                self.exe_view(),
                dest@,
                repo_dir@,
                refspec.deep_view(),
                lfs,
            ));
        }
        r
    }
}

impl Git {
    fn lfs_fetch(&self, repo_dir: &str) -> (c: GitCommand)
        ensures
            c@ == lfs_fetch_cmd(self.executable@, repo_dir@),
    {
        let mut c = self.base_cmd();
        c.cwd = Some(repo_dir.to_owned());
        c.args.push(String::from_str("lfs"));
        c.args.push(String::from_str("fetch"));
        proof {
            assert(c.args.deep_view() =~~= seq!["lfs"@, "fetch"@]);
            assert(c@ =~~= lfs_fetch_cmd(self.executable@, repo_dir@));
        }
        c
    }
}

} // verus!
