use micropaas::config::Config;
use micropaas::deploy::{
    commit_message, deploy_action, deploy_step, DeployAction, DeployEvent, DeployState,
    GitOpsTarget,
};
use micropaas::errors::{DeployError, DeployOutcome};
use micropaas::image::Image;

fn chars(s: &str) -> Vec<char> {
    s.chars().collect()
}

fn string_of(v: &[char]) -> String {
    v.iter().collect()
}

fn args_of(a: &DeployAction) -> Vec<String> {
    match a {
        DeployAction::RunGit { args, .. } => args.clone(),
        _ => panic!("expected a git action"),
    }
}

fn test_config() -> Config {
    Config {
        repository: String::from("blog"),
        registry_host: Some(String::from("registry.example.com")),
        gitops_repo: Some(String::from("gitops")),
        default_branch: None,
        git_user_name: None,
        git_user_email: None,
        webhook_endpoint: None,
    }
}

fn test_target() -> GitOpsTarget {
    let image = Image::local("blog", "abc123").to_remote("registry.example.com");
    GitOpsTarget::new(&test_config(), &image)
}

const VALUES: &str = "\
app-template:
  controllers:
    main:
      containers:
        main:
          image:
            tag: oldsha
";

#[test]
fn target_paths_are_deterministic() {
    let t = test_target();
    assert_eq!(t.bare_dir, "/var/lib/micropaas/repos/gitops.git");
    assert_eq!(t.branch, "master");
    assert_eq!(t.worktree_dir, "/var/lib/micropaas/repos/gitops.git/master");
    assert_eq!(t.values_file, "apps/blog/values.yaml");
    assert_eq!(t.repository, "blog");
    assert_eq!(t.tag, "abc123");
    assert_eq!(t.user_name, "Bot");
    assert_eq!(t.user_email, "bot@example.com");
}

#[test]
fn target_honours_configured_branch_and_identity() {
    let mut cfg = test_config();
    cfg.default_branch = Some(String::from("main"));
    cfg.git_user_name = Some(String::from("Deployer"));
    cfg.git_user_email = Some(String::from("deploy@example.org"));
    let image = Image::local("blog", "abc123").to_remote("registry.example.com");
    let t = GitOpsTarget::new(&cfg, &image);
    assert_eq!(t.branch, "main");
    assert_eq!(t.worktree_dir, "/var/lib/micropaas/repos/gitops.git/main");
    assert_eq!(t.user_name, "Deployer");
    assert_eq!(t.user_email, "deploy@example.org");
}

#[test]
fn commit_message_is_deterministic() {
    assert_eq!(
        commit_message("blog", "abc123"),
        "chore(blog): update image tag to abc123"
    );
}

#[test]
fn attach_conflict_fails_without_cleanup() {
    let t = test_target();
    let s = deploy_step(&t, DeployState::AttachWorktree, DeployEvent::GitFailed);
    match s {
        DeployState::Done { result } => {
            assert_eq!(result, Err(DeployError::WorktreeConflict));
        }
        _ => panic!("a failed attach must end the deploy"),
    }
}

#[test]
fn first_deploy_commits_and_removes_worktree() {
    let t = test_target();
    let s = deploy_step(&t, DeployState::AttachWorktree, DeployEvent::GitSucceeded);
    assert!(matches!(s, DeployState::ReadManifest));
    let s = deploy_step(&t, s, DeployEvent::ManifestContent { content: chars(VALUES) });
    let written = match &s {
        DeployState::WriteManifest { content, changed } => {
            assert!(*changed);
            assert!(string_of(content).contains("tag: abc123\n"));
            content.clone()
        }
        _ => panic!("the manifest should have been patched"),
    };
    let s = deploy_step(&t, s, DeployEvent::WriteSucceeded);
    assert!(matches!(s, DeployState::StageChanges));
    let s = deploy_step(&t, s, DeployEvent::GitSucceeded);
    assert!(matches!(s, DeployState::CommitChange));
    let s = deploy_step(&t, s, DeployEvent::GitSucceeded);
    assert!(matches!(
        s,
        DeployState::RemoveWorktree { pending: Ok(DeployOutcome::Committed) }
    ));
    let s = deploy_step(&t, s, DeployEvent::GitSucceeded);
    match s {
        DeployState::Done { result } => assert_eq!(result, Ok(DeployOutcome::Committed)),
        _ => panic!("removal must end the deploy"),
    }

    // second run against the state the first one wrote: nothing to commit
    let s = deploy_step(&t, DeployState::AttachWorktree, DeployEvent::GitSucceeded);
    let s = deploy_step(&t, s, DeployEvent::ManifestContent { content: written });
    match &s {
        DeployState::WriteManifest { changed, .. } => assert!(!*changed),
        _ => panic!("the manifest should have been re-rendered"),
    }
    let s = deploy_step(&t, s, DeployEvent::WriteSucceeded);
    assert!(matches!(
        s,
        DeployState::RemoveWorktree { pending: Ok(DeployOutcome::NoChanges) }
    ));
}

#[test]
fn missing_manifest_still_removes_worktree() {
    let t = test_target();
    let s = deploy_step(&t, DeployState::ReadManifest, DeployEvent::ManifestMissing);
    assert!(matches!(
        s,
        DeployState::RemoveWorktree { pending: Err(DeployError::ManifestNotFound) }
    ));
    let s = deploy_step(&t, s, DeployEvent::GitFailed);
    match s {
        DeployState::Done { result } => assert_eq!(result, Err(DeployError::ManifestNotFound)),
        _ => panic!("removal must end the deploy even when it fails itself"),
    }
}

#[test]
fn commit_failure_still_removes_worktree() {
    let t = test_target();
    let s = deploy_step(&t, DeployState::CommitChange, DeployEvent::GitFailed);
    assert!(matches!(
        s,
        DeployState::RemoveWorktree { pending: Err(DeployError::GitOperation) }
    ));
}

#[test]
fn unparsable_manifest_is_fatal_but_cleaned_up() {
    let t = test_target();
    let s = deploy_step(
        &t,
        DeployState::ReadManifest,
        DeployEvent::ManifestContent { content: chars("app-template:\n  image:tag\n") },
    );
    assert!(matches!(
        s,
        DeployState::RemoveWorktree { pending: Err(DeployError::ManifestParse) }
    ));
}

#[test]
fn actions_carry_the_exact_git_invocations() {
    let t = test_target();
    let attach = args_of(&deploy_action(&t, &DeployState::AttachWorktree));
    assert_eq!(
        attach,
        vec![
            "worktree",
            "add",
            "--quiet",
            "/var/lib/micropaas/repos/gitops.git/master",
            "master"
        ]
    );
    let remove = args_of(&deploy_action(
        &t,
        &DeployState::RemoveWorktree { pending: Ok(DeployOutcome::Committed) },
    ));
    assert_eq!(remove, vec!["worktree", "remove", "--force", "master"]);
    let stage = args_of(&deploy_action(&t, &DeployState::StageChanges));
    assert_eq!(stage, vec!["add", "."]);
    let commit = args_of(&deploy_action(&t, &DeployState::CommitChange));
    assert_eq!(
        commit,
        vec![
            "-c",
            "user.name=Bot",
            "-c",
            "user.email=bot@example.com",
            "commit",
            "--message",
            "chore(blog): update image tag to abc123"
        ]
    );
}

#[test]
fn read_and_write_actions_point_at_the_values_file() {
    let t = test_target();
    match deploy_action(&t, &DeployState::ReadManifest) {
        DeployAction::ReadFile { dir, path } => {
            assert_eq!(dir, "/var/lib/micropaas/repos/gitops.git/master");
            assert_eq!(path, "apps/blog/values.yaml");
        }
        _ => panic!("reading the manifest is a file action"),
    }
    match deploy_action(
        &t,
        &DeployState::WriteManifest { content: chars("x: y\n"), changed: true },
    ) {
        DeployAction::WriteFile { dir, path, content } => {
            assert_eq!(dir, "/var/lib/micropaas/repos/gitops.git/master");
            assert_eq!(path, "apps/blog/values.yaml");
            assert_eq!(string_of(&content), "x: y\n");
        }
        _ => panic!("writing the manifest is a file action"),
    }
}

#[test]
fn write_failure_still_removes_worktree() {
    let t = test_target();
    let s = deploy_step(
        &t,
        DeployState::WriteManifest { content: chars("a: b\n"), changed: true },
        DeployEvent::WriteFailed,
    );
    assert!(matches!(
        s,
        DeployState::RemoveWorktree { pending: Err(DeployError::ManifestWrite) }
    ));
}

#[test]
fn stage_failure_still_removes_worktree() {
    let t = test_target();
    let s = deploy_step(&t, DeployState::StageChanges, DeployEvent::GitFailed);
    assert!(matches!(
        s,
        DeployState::RemoveWorktree { pending: Err(DeployError::GitOperation) }
    ));
}

#[test]
fn unreadable_manifest_is_fatal_but_cleaned_up() {
    let t = test_target();
    let s = deploy_step(&t, DeployState::ReadManifest, DeployEvent::ReadFailed);
    assert!(matches!(
        s,
        DeployState::RemoveWorktree { pending: Err(DeployError::ManifestRead) }
    ));
}

#[test]
fn single_line_rejects_newlines() {
    assert!(micropaas::text::single_line("abc123"));
    assert!(micropaas::text::single_line(""));
    assert!(!micropaas::text::single_line("abc\n123"));
}

#[test]
fn error_descriptions_name_the_condition() {
    assert_eq!(
        DeployError::WorktreeConflict.describe(),
        "a deploy worktree already exists"
    );
    assert_eq!(DeployError::ManifestNotFound.describe(), "values manifest not found");
    assert_eq!(DeployError::ManifestRead.describe(), "failed to read values manifest");
    assert_eq!(DeployError::ManifestParse.describe(), "values manifest failed to parse");
    assert_eq!(DeployError::ManifestWrite.describe(), "failed to write values manifest");
    assert_eq!(DeployError::GitOperation.describe(), "git operation failed");
}
