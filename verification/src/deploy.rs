//! The deploy stage: patch the image tag in the GitOps values manifest and
//! commit the change, holding the bare repository's worktree list as the
//! lock against concurrent deploys.
//!
//! The protocol is a state machine. The caller performs each state's action
//! (a git subprocess, a file read or write) and feeds the outcome back as an
//! event; `deploy_step` decides the next state. The machine guarantees that
//! a worktree, once attached, is removed again on every path to a terminal
//! state, also after a failure, and that an attach conflict fails the deploy
//! without touching anything.

use vstd::prelude::*;
use vstd::string::*;
use vstd::pervasive::unreached;
use crate::config::{or_default_spec, Config};
use crate::errors::{DeployError, DeployOutcome};
use crate::image::Image;
use crate::manifest::{parse_doc, patch_lines, patch_values, render_lines, valid_lines, valid_value, LineModel};
use crate::manifest::lemma_redeploy_is_noop;
use crate::text::str_to_chars;

verus! {

/// Where a deploy works: the GitOps bare repository, its default branch, the
/// manifest path, and the commit identity.
pub struct GitOpsTarget {
    pub bare_dir: String,
    pub branch: String,
    pub worktree_dir: String,
    pub values_file: String,
    pub repository: String,
    pub tag: String,
    pub user_name: String,
    pub user_email: String,
}

/// The commit message recording a deploy.
pub open spec fn commit_message_spec(repository: Seq<char>, tag: Seq<char>) -> Seq<char> {
    "chore("@ + repository + "): update image tag to "@ + tag
}

/// `chore(<repository>): update image tag to <tag>`.
pub fn commit_message(repository: &str, tag: &str) -> (r: String)
    ensures
        r@ == commit_message_spec(repository@, tag@),
{
    let mut r = String::from_str("chore(");
    r.append(repository);
    r.append("): update image tag to ");
    r.append(tag);
    proof {
        assert(r@ =~= commit_message_spec(repository@, tag@));
    }
    r
}

impl GitOpsTarget {
    /// Resolve the target from the configuration and the pushed image. The
    /// worktree path is fixed and deterministic: the branch name inside the
    /// bare directory.
    pub fn new(cfg: &Config, image: &Image) -> (r: GitOpsTarget)
        requires
            cfg.gitops_repo is Some,
        ensures
            (cfg.gitops_repo matches Some(g) ==> r.bare_dir@ == "/var/lib/micropaas/repos/"@ + g@
                + ".git"@),
            r.branch@ == or_default_spec(cfg.default_branch, "master"@),
            r.worktree_dir@ == r.bare_dir@ + "/"@ + r.branch@,
            r.values_file@ == "apps/"@ + cfg.repository@ + "/values.yaml"@,
            r.repository@ == cfg.repository@,
            r.tag@ == image.tag@,
            r.user_name@ == or_default_spec(cfg.git_user_name, "Bot"@),
            r.user_email@ == or_default_spec(cfg.git_user_email, "bot@example.com"@),
    {
        let gitops: &String = match &cfg.gitops_repo {
            Some(g) => g,
            None => unreached(),
        };
        let mut bare_dir = String::from_str("/var/lib/micropaas/repos/");
        bare_dir.append(gitops.as_str());
        bare_dir.append(".git");
        let branch = cfg.branch_or_default();
        let mut worktree_dir = bare_dir.clone();
        worktree_dir.append("/");
        worktree_dir.append(branch.as_str());
        let mut values_file = String::from_str("apps/");
        values_file.append(cfg.repository.as_str());
        values_file.append("/values.yaml");
        let r = GitOpsTarget {
            bare_dir,
            branch,
            worktree_dir,
            values_file,
            repository: cfg.repository.clone(),
            tag: image.tag.clone(),
            user_name: cfg.user_name_or_default(),
            user_email: cfg.user_email_or_default(),
        };
        proof {
            match &cfg.gitops_repo {
                Some(g) => {
                    assert(r.bare_dir@ =~= "/var/lib/micropaas/repos/"@ + g@ + ".git"@);
                },
                None => {},
            }
            assert(r.worktree_dir@ =~= r.bare_dir@ + "/"@ + r.branch@);
            assert(r.values_file@ =~= "apps/"@ + cfg.repository@ + "/values.yaml"@);
        }
        r
    }
}

/// Where a deploy stands. Each state waits for the outcome of one action.
pub enum DeployState {
    /// Attach the default-branch worktree; fails on a concurrent deploy.
    AttachWorktree,
    /// Read the values manifest from the worktree.
    ReadManifest,
    /// Write the patched manifest back; `changed` records whether the text
    /// differs from what was read, which decides whether to commit.
    WriteManifest { content: Vec<char>, changed: bool },
    /// Stage the worktree's changes.
    StageChanges,
    /// Commit the staged change.
    CommitChange,
    /// Remove the worktree; runs on every path once the worktree exists,
    /// carrying the result to report afterwards.
    RemoveWorktree { pending: Result<DeployOutcome, DeployError> },
    /// The deploy is over.
    Done { result: Result<DeployOutcome, DeployError> },
}

/// What the caller reports back after performing an action.
pub enum DeployEvent {
    GitSucceeded,
    GitFailed,
    ManifestContent { content: Vec<char> },
    ManifestMissing,
    ReadFailed,
    WriteSucceeded,
    WriteFailed,
}

/// States in which the worktree exists and has not been removed yet.
pub open spec fn is_attached(s: DeployState) -> bool {
    ||| s is ReadManifest
    ||| s is WriteManifest
    ||| s is StageChanges
    ||| s is CommitChange
}

pub open spec fn is_terminal(s: DeployState) -> bool {
    s is Done
}

/// The machine's transition graph, irrespective of events: which states can
/// follow which. An attached state never reaches a terminal state except
/// through `RemoveWorktree`.
pub open spec fn deploy_edge(s: DeployState, r: DeployState) -> bool {
    match s {
        DeployState::AttachWorktree => {
            ||| r is ReadManifest
            ||| (r matches DeployState::Done { result } && result == Err::<
                DeployOutcome,
                DeployError,
            >(DeployError::WorktreeConflict))
            ||| r == s
        },
        DeployState::ReadManifest => {
            ||| r is WriteManifest
            ||| r is RemoveWorktree
            ||| r == s
        },
        DeployState::WriteManifest { .. } => {
            ||| r is StageChanges
            ||| r is RemoveWorktree
            ||| r == s
        },
        DeployState::StageChanges => {
            ||| r is CommitChange
            ||| r is RemoveWorktree
            ||| r == s
        },
        DeployState::CommitChange => {
            ||| r is RemoveWorktree
            ||| r == s
        },
        DeployState::RemoveWorktree { pending } => (r matches DeployState::Done { result }
            && result == pending),
        DeployState::Done { result } => r == s,
    }
}

/// One decision of the deploy protocol: from the current state and the
/// outcome of its action to the next state.
///
/// The conflict guard: a failed worktree attach ends the deploy at once with
/// `WorktreeConflict`; nothing has been created, so nothing is cleaned up.
/// From any attached state, failure leads to `RemoveWorktree`, never
/// directly to `Done`: the cleanup always runs. The remove's own outcome is
/// ignored, as the result it carries was decided before.
pub fn deploy_step(t: &GitOpsTarget, s: DeployState, e: DeployEvent) -> (r: DeployState)
    requires
        !t.tag@.contains('\n'),
    ensures
        deploy_edge(s, r),
        is_attached(s) ==> is_attached(r) || r is RemoveWorktree,
        s is RemoveWorktree ==> r is Done,
        is_terminal(s) ==> r == s,
        s is AttachWorktree && e is GitSucceeded ==> r is ReadManifest,
        s is AttachWorktree && e is GitFailed ==> (r matches DeployState::Done { result }
            && result == Err::<DeployOutcome, DeployError>(DeployError::WorktreeConflict)),
        s is ReadManifest ==> (e matches DeployEvent::ManifestContent { content } ==> (match
            parse_doc(content@) {
            None => (r matches DeployState::RemoveWorktree { pending } && pending == Err::<
                DeployOutcome,
                DeployError,
            >(DeployError::ManifestParse)),
            Some(ls) => (r matches DeployState::WriteManifest { content: nc, changed } && nc@
                == render_lines(patch_lines(ls, t.tag@)) && changed == (nc@ != content@)),
        })),
        s is ReadManifest && e is ManifestMissing ==> (r matches DeployState::RemoveWorktree {
            pending,
        } && pending == Err::<DeployOutcome, DeployError>(DeployError::ManifestNotFound)),
        s is ReadManifest && e is ReadFailed ==> (r matches DeployState::RemoveWorktree {
            pending,
        } && pending == Err::<DeployOutcome, DeployError>(DeployError::ManifestRead)),
        e is WriteSucceeded ==> (s matches DeployState::WriteManifest { changed, .. } ==> ((changed
            ==> r is StageChanges) && (!changed ==> (r matches DeployState::RemoveWorktree {
            pending,
        } && pending == Ok::<DeployOutcome, DeployError>(DeployOutcome::NoChanges))))),
        (s is WriteManifest && e is WriteFailed) ==> (r matches DeployState::RemoveWorktree {
            pending,
        } && pending == Err::<DeployOutcome, DeployError>(DeployError::ManifestWrite)),
        s is StageChanges && e is GitSucceeded ==> r is CommitChange,
        s is StageChanges && e is GitFailed ==> (r matches DeployState::RemoveWorktree { pending }
            && pending == Err::<DeployOutcome, DeployError>(DeployError::GitOperation)),
        s is CommitChange && e is GitSucceeded ==> (r matches DeployState::RemoveWorktree {
            pending,
        } && pending == Ok::<DeployOutcome, DeployError>(DeployOutcome::Committed)),
        s is CommitChange && e is GitFailed ==> (r matches DeployState::RemoveWorktree { pending }
            && pending == Err::<DeployOutcome, DeployError>(DeployError::GitOperation)),
        s matches DeployState::RemoveWorktree { pending } ==> (r matches DeployState::Done {
            result,
        } && result == pending),
{
    match s {
        DeployState::AttachWorktree => {
            match e {
                DeployEvent::GitSucceeded => DeployState::ReadManifest,
                DeployEvent::GitFailed => DeployState::Done {
                    result: Err(DeployError::WorktreeConflict),
                },
                _ => DeployState::AttachWorktree,
            }
        },
        DeployState::ReadManifest => {
            match e {
                DeployEvent::ManifestContent { content } => {
                    let tag_chars = str_to_chars(t.tag.as_str());
                    match patch_values(&content, &tag_chars) {
                        Ok((new_content, changed)) => DeployState::WriteManifest {
                            content: new_content,
                            changed,
                        },
                        Err(err) => DeployState::RemoveWorktree { pending: Err(err) },
                    }
                },
                DeployEvent::ManifestMissing => DeployState::RemoveWorktree {
                    pending: Err(DeployError::ManifestNotFound),
                },
                DeployEvent::ReadFailed => DeployState::RemoveWorktree {
                    pending: Err(DeployError::ManifestRead),
                },
                _ => DeployState::ReadManifest,
            }
        },
        DeployState::WriteManifest { content, changed } => {
            match e {
                DeployEvent::WriteSucceeded => {
                    if changed {
                        DeployState::StageChanges
                    } else {
                        DeployState::RemoveWorktree { pending: Ok(DeployOutcome::NoChanges) }
                    }
                },
                DeployEvent::WriteFailed => DeployState::RemoveWorktree {
                    pending: Err(DeployError::ManifestWrite),
                },
                _ => DeployState::WriteManifest { content, changed },
            }
        },
        DeployState::StageChanges => {
            match e {
                DeployEvent::GitSucceeded => DeployState::CommitChange,
                DeployEvent::GitFailed => DeployState::RemoveWorktree {
                    pending: Err(DeployError::GitOperation),
                },
                _ => DeployState::StageChanges,
            }
        },
        DeployState::CommitChange => {
            match e {
                DeployEvent::GitSucceeded => DeployState::RemoveWorktree {
                    pending: Ok(DeployOutcome::Committed),
                },
                DeployEvent::GitFailed => DeployState::RemoveWorktree {
                    pending: Err(DeployError::GitOperation),
                },
                _ => DeployState::CommitChange,
            }
        },
        DeployState::RemoveWorktree { pending } => DeployState::Done { result: pending },
        DeployState::Done { result } => DeployState::Done { result },
    }
}

/// A sequence of states the machine can pass through.
pub open spec fn valid_trace(states: Seq<DeployState>) -> bool {
    forall|i: int, j: int|
        0 <= i && j == i + 1 && j < states.len() ==> deploy_edge(
            #[trigger] states[i],
            #[trigger] states[j],
        )
}

/// Law: the worktree is always removed. Any run that reaches an attached
/// state (the worktree exists) and ends in a terminal state passes through
/// `RemoveWorktree`, whose action is the worktree's removal — also when the
/// manifest write or the commit failed.
pub proof fn lemma_worktree_always_removed(states: Seq<DeployState>)
    requires
        states.len() > 0,
        valid_trace(states),
        is_attached(states[0]),
        is_terminal(states.last()),
    ensures
        exists|i: int| 0 <= i < states.len() && (#[trigger] states[i]) is RemoveWorktree,
    decreases states.len(),
{
    assert(!is_terminal(states[0]));
    assert(states.len() >= 2);
    assert(deploy_edge(states[0], states[1]));
    if states[1] is RemoveWorktree {
        assert(states[1] is RemoveWorktree);
    } else {
        assert(is_attached(states[1]));
        let tail = states.drop_first();
        assert(tail[0] == states[1]);
        assert(tail.last() == states.last());
        assert forall|i: int, j: int| 0 <= i && j == i + 1 && j < tail.len() implies deploy_edge(
            #[trigger] tail[i],
            #[trigger] tail[j],
        ) by {
            assert(tail[i] == states[i + 1]);
            assert(tail[j] == states[j + 1]);
            assert(deploy_edge(states[i + 1], states[i + 2]));
        }
        lemma_worktree_always_removed(tail);
        let j = choose|j: int| 0 <= j < tail.len() && (#[trigger] tail[j]) is RemoveWorktree;
        assert(states[j + 1] == tail[j]);
    }
}

/// Law: deploying the same tag twice commits once. A first deploy writes
/// `render_lines(patch_lines(ls, tag))`; a second deploy reads that text
/// back, parses it, patches it with the same tag, and obtains the identical
/// text, so its `changed` flag is false and it ends in `NoChanges` without
/// staging or committing anything.
pub proof fn lemma_second_deploy_skips_commit(ls: Seq<LineModel>, tag: Seq<char>)
    requires
        valid_lines(ls),
        valid_value(tag),
    ensures
        ({
            let written = render_lines(patch_lines(ls, tag));
            match parse_doc(written) {
                Some(ls2) => render_lines(patch_lines(ls2, tag)) == written,
                None => false,
            }
        }),
{
    lemma_redeploy_is_noop(ls, tag);
}

/// What the caller must do in a state.
pub enum DeployAction {
    /// Run git with these arguments in this directory. `clear_git_dir` marks
    /// the calls made inside the worktree, where an inherited `GIT_DIR`
    /// pointing at the bare repository must not leak in.
    RunGit { dir: String, clear_git_dir: bool, args: Vec<String> },
    /// Read this file, relative to this directory.
    ReadFile { dir: String, path: String },
    /// Overwrite this file, relative to this directory.
    WriteFile { dir: String, path: String, content: Vec<char> },
    /// Nothing left to do; report the result.
    Finished { result: Result<DeployOutcome, DeployError> },
}

/// The action a state waits on.
pub fn deploy_action(t: &GitOpsTarget, s: &DeployState) -> (a: DeployAction)
    ensures
        (*s is AttachWorktree) ==> (a matches DeployAction::RunGit { dir, clear_git_dir, args }
            && dir@ == t.bare_dir@ && !clear_git_dir && args.deep_view() == seq![
            "worktree"@,
            "add"@,
            "--quiet"@,
            t.worktree_dir@,
            t.branch@,
        ]),
        (*s is ReadManifest) ==> (a matches DeployAction::ReadFile { dir, path } && dir@
            == t.worktree_dir@ && path@ == t.values_file@),
        *s matches DeployState::WriteManifest { content, .. } ==> (a matches
            DeployAction::WriteFile { dir, path, content: c } && dir@ == t.worktree_dir@ && path@
            == t.values_file@ && c@ == content@),
        (*s is StageChanges) ==> (a matches DeployAction::RunGit { dir, clear_git_dir, args }
            && dir@ == t.worktree_dir@ && clear_git_dir && args.deep_view() == seq!["add"@, "."@]),
        (*s is CommitChange) ==> (a matches DeployAction::RunGit { dir, clear_git_dir, args }
            && dir@ == t.worktree_dir@ && clear_git_dir && args.deep_view() == seq![
            "-c"@,
            "user.name="@ + t.user_name@,
            "-c"@,
            "user.email="@ + t.user_email@,
            "commit"@,
            "--message"@,
            commit_message_spec(t.repository@, t.tag@),
        ]),
        (*s is RemoveWorktree) ==> (a matches DeployAction::RunGit { dir, clear_git_dir, args }
            && dir@ == t.bare_dir@ && !clear_git_dir && args.deep_view() == seq![
            "worktree"@,
            "remove"@,
            "--force"@,
            t.branch@,
        ]),
        *s matches DeployState::Done { result } ==> (a matches DeployAction::Finished {
            result: rr,
        } && rr == result),
{
    match s {
        DeployState::AttachWorktree => {
            let mut args: Vec<String> = Vec::new();
            args.push(String::from_str("worktree"));
            args.push(String::from_str("add"));
            args.push(String::from_str("--quiet"));
            args.push(t.worktree_dir.clone());
            args.push(t.branch.clone());
            proof {
                assert(args.deep_view() =~= seq![
                    "worktree"@,
                    "add"@,
                    "--quiet"@,
                    t.worktree_dir@,
                    t.branch@,
                ]);
            }
            DeployAction::RunGit { dir: t.bare_dir.clone(), clear_git_dir: false, args }
        },
        DeployState::ReadManifest => DeployAction::ReadFile {
            dir: t.worktree_dir.clone(),
            path: t.values_file.clone(),
        },
        DeployState::WriteManifest { content, .. } => {
            let c = crate::text::sub_chars(content, 0, content.len());
            proof {
                assert(c@ =~= content@);
            }
            DeployAction::WriteFile {
                dir: t.worktree_dir.clone(),
                path: t.values_file.clone(),
                content: c,
            }
        },
        DeployState::StageChanges => {
            let mut args: Vec<String> = Vec::new();
            args.push(String::from_str("add"));
            args.push(String::from_str("."));
            proof {
                assert(args.deep_view() =~= seq!["add"@, "."@]);
            }
            DeployAction::RunGit { dir: t.worktree_dir.clone(), clear_git_dir: true, args }
        },
        DeployState::CommitChange => {
            let mut user_name_arg = String::from_str("user.name=");
            user_name_arg.append(t.user_name.as_str());
            let mut user_email_arg = String::from_str("user.email=");
            user_email_arg.append(t.user_email.as_str());
            let mut args: Vec<String> = Vec::new();
            args.push(String::from_str("-c"));
            args.push(user_name_arg);
            args.push(String::from_str("-c"));
            args.push(user_email_arg);
            args.push(String::from_str("commit"));
            args.push(String::from_str("--message"));
            args.push(commit_message(t.repository.as_str(), t.tag.as_str()));
            proof {
                assert(args.deep_view() =~= seq![
                    "-c"@,
                    "user.name="@ + t.user_name@,
                    "-c"@,
                    "user.email="@ + t.user_email@,
                    "commit"@,
                    "--message"@,
                    commit_message_spec(t.repository@, t.tag@),
                ]);
            }
            DeployAction::RunGit { dir: t.worktree_dir.clone(), clear_git_dir: true, args }
        },
        DeployState::RemoveWorktree { .. } => {
            let mut args: Vec<String> = Vec::new();
            args.push(String::from_str("worktree"));
            args.push(String::from_str("remove"));
            args.push(String::from_str("--force"));
            args.push(t.branch.clone());
            proof {
                assert(args.deep_view() =~= seq![
                    "worktree"@,
                    "remove"@,
                    "--force"@,
                    t.branch@,
                ]);
            }
            DeployAction::RunGit { dir: t.bare_dir.clone(), clear_git_dir: false, args }
        },
        DeployState::Done { result } => DeployAction::Finished { result: *result },
    }
}

} // verus!
