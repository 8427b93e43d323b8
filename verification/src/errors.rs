//! The deploy stage's error taxonomy. Fatal conditions abort the run; skipped
//! stages and no-op commits are not errors and never appear here.

use vstd::prelude::*;

verus! {

/// Fatal conditions of the deploy stage.
#[derive(Clone, Copy, Debug, PartialEq, Eq, Structural)]
pub enum DeployError {
    /// A worktree for the default branch already exists: a concurrent deploy
    /// holds the lock.
    WorktreeConflict,
    /// The values manifest is missing from the GitOps tree.
    ManifestNotFound,
    /// The values manifest exists but could not be read.
    ManifestRead,
    /// The values manifest does not parse as nested block mappings.
    ManifestParse,
    /// The patched manifest could not be written back.
    ManifestWrite,
    /// A git subprocess failed while staging or committing.
    GitOperation,
}

/// How a completed deploy ended.
#[derive(Clone, Copy, Debug, PartialEq, Eq, Structural)]
pub enum DeployOutcome {
    /// The manifest changed and the change was committed.
    Committed,
    /// The manifest already carried the tag: nothing to commit.
    NoChanges,
}

/// The short description of a deploy error, for operator output.
pub open spec fn deploy_error_text(e: DeployError) -> Seq<char> {
    match e {
        DeployError::WorktreeConflict => "a deploy worktree already exists"@,
        DeployError::ManifestNotFound => "values manifest not found"@,
        DeployError::ManifestRead => "failed to read values manifest"@,
        DeployError::ManifestParse => "values manifest failed to parse"@,
        DeployError::ManifestWrite => "failed to write values manifest"@,
        DeployError::GitOperation => "git operation failed"@,
    }
}

impl DeployError {
    /// A short description, for operator output.
    pub fn describe(&self) -> (r: &'static str)
        ensures
            r@ == deploy_error_text(*self),
    {
        match self {
            DeployError::WorktreeConflict => "a deploy worktree already exists",
            DeployError::ManifestNotFound => "values manifest not found",
            DeployError::ManifestRead => "failed to read values manifest",
            DeployError::ManifestParse => "values manifest failed to parse",
            DeployError::ManifestWrite => "failed to write values manifest",
            DeployError::GitOperation => "git operation failed",
        }
    }
}

} // verus!
