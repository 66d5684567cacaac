//! The run-level error taxonomy and its mapping to process exit codes.

use vstd::prelude::*;

use crate::git::{GitError, GitErrorView};
use crate::provider::{MirrorError, MirrorErrorView};

verus! {

/// Everything that can end a run, or one of its jobs, unsuccessfully.
#[derive(Debug, Clone, PartialEq, Eq)]
pub enum GitMirrorError {
    /// Configuration, filesystem, locking or layout failure.
    GenericError(String),
    /// A git invocation failed.
    GitError(GitError),
    /// Provider enumeration classified a project as not mirrorable.
    MirrorError(MirrorError),
    /// This many sync tasks failed over the whole run.
    SyncError(usize),
}

/// The model of a [`GitMirrorError`].
pub enum GitMirrorErrorView {
    GenericError(Seq<char>),
    GitError(GitErrorView),
    MirrorError(MirrorErrorView),
    SyncError(usize),
}

impl View for GitMirrorError {
    type V = GitMirrorErrorView;

    open spec fn view(&self) -> GitMirrorErrorView {
        match self {
            GitMirrorError::GenericError(msg) => GitMirrorErrorView::GenericError(msg@),
            GitMirrorError::GitError(e) => GitMirrorErrorView::GitError(e@),
            GitMirrorError::MirrorError(e) => GitMirrorErrorView::MirrorError(e@),
            GitMirrorError::SyncError(n) => GitMirrorErrorView::SyncError(*n),
        }
    }
}

impl DeepView for GitMirrorError {
    type V = GitMirrorErrorView;

    open spec fn deep_view(&self) -> GitMirrorErrorView {
        self.view()
    }
}

/// The one-line description of a [`GitMirrorError`].
pub open spec fn error_message(e: GitMirrorErrorView) -> Seq<char> {
    match e {
        GitMirrorErrorView::GenericError(msg) => "Generic Mirror error: "@ + msg,
        GitMirrorErrorView::GitError(inner) => "Git command execution failed: "@
            + crate::git::git_error_message(inner),
        GitMirrorErrorView::MirrorError(inner) => "Mirror extraction failed: "@
            + crate::provider::mirror_error_message(inner),
        GitMirrorErrorView::SyncError(n) => crate::numfmt::dec_nat(n as nat)
            + " sync tasks failed"@,
    }
}

impl GitMirrorError {
    /// Renders the error as one line of text.
    pub fn message(&self) -> (r: String)
        ensures
            r@ == error_message(self@),
    {
        match self {
            GitMirrorError::GenericError(msg) => {
                let mut s = String::from_str("Generic Mirror error: ");
                s.append(msg.as_str());
                s
            },
            GitMirrorError::GitError(inner) => {
                let mut s = String::from_str("Git command execution failed: ");
                s.append(inner.message().as_str());
                s
            },
            GitMirrorError::MirrorError(inner) => {
                let mut s = String::from_str("Mirror extraction failed: ");
                s.append(inner.message().as_str());
                s
            },
            GitMirrorError::SyncError(n) => {
                let mut s = crate::numfmt::u64_to_dec(*n as u64);
                s.append(" sync tasks failed");
                s
            },
        }
    }
}

/// The process exit code each error maps to.
pub open spec fn exit_code_of(e: GitMirrorErrorView) -> i32 {
    match e {
        GitMirrorErrorView::SyncError(_) => 1,
        GitMirrorErrorView::GenericError(_) => 2,
        GitMirrorErrorView::GitError(_) => 3,
        GitMirrorErrorView::MirrorError(_) => 4,
    }
}

impl From<GitMirrorError> for i32 {
    fn from(mirror: GitMirrorError) -> (r: i32) {
        match mirror {
            GitMirrorError::SyncError(_) => 1,
            GitMirrorError::GenericError(_) => 2,
            GitMirrorError::GitError(_) => 3,
            GitMirrorError::MirrorError(_) => 4,
        }
    }
}

impl vstd::std_specs::convert::FromSpecImpl<GitMirrorError> for i32 {
    open spec fn obeys_from_spec() -> bool {
        true
    }

    open spec fn from_spec(mirror: GitMirrorError) -> i32 {
        exit_code_of(mirror@)
    }
}

} // verus!
