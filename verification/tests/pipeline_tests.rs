use micropaas::builder::{build_args, build_program, ci_args, ci_enabled, detect, BuildVariant};
use micropaas::config::Config;
use micropaas::errors::{DeployError, DeployOutcome};
use micropaas::image::Image;
use micropaas::pipeline::{
    pipeline_action, pipeline_step, workspace_worktree_args, PipelineAction, PipelineError,
    PipelineEvent, PipelineOutcome, PipelineState, PushEvent,
};
use micropaas::webhook::{webhook_headers, webhook_payload};

fn chars(s: &str) -> Vec<char> {
    s.chars().collect()
}

fn full_config() -> Config {
    Config {
        repository: String::from("blog"),
        registry_host: Some(String::from("registry.example.com")),
        gitops_repo: Some(String::from("gitops")),
        default_branch: None,
        git_user_name: None,
        git_user_email: None,
        webhook_endpoint: Some(String::from("http://example/webhook")),
    }
}

fn push_event() -> PushEvent {
    PushEvent {
        ref_name: String::from("refs/heads/master"),
        old_object: String::from("0000000000000000000000000000000000000000"),
        new_object: String::from("abc123"),
    }
}

#[test]
fn dockerfile_always_wins_detection() {
    // a tree with both a Dockerfile and Nixpacks-detectable metadata
    assert_eq!(detect(true, 100), Some(BuildVariant::Dockerfile));
    assert_eq!(detect(true, 0), Some(BuildVariant::Dockerfile));
    assert_eq!(detect(false, 100), Some(BuildVariant::Nixpacks));
    assert_eq!(detect(false, 1), None);
    assert_eq!(detect(false, 0), None);
}

#[test]
fn unbuildable_tree_skips_the_rest_without_error() {
    let cfg = full_config();
    let push = push_event();
    let s = pipeline_step(
        &cfg,
        &push,
        PipelineState::DetectBuild,
        PipelineEvent::DetectInfo { dockerfile_present: false, nixpacks_detect_len: 0 },
    );
    match s {
        PipelineState::Finished { result } => {
            assert_eq!(result, Ok(PipelineOutcome::NotBuildable));
        }
        _ => panic!("an unbuildable tree must end the pipeline as a skip"),
    }
}

#[test]
fn full_pipeline_reaches_notified() {
    let cfg = full_config();
    let push = push_event();
    let s = pipeline_step(&cfg, &push, PipelineState::SetupWorkspace, PipelineEvent::WorkspaceReady);
    assert!(matches!(s, PipelineState::CheckCi));
    let s = pipeline_step(
        &cfg,
        &push,
        s,
        PipelineEvent::CiInfo { flake_nix: false, flake_lock: false, makefile: None },
    );
    assert!(matches!(s, PipelineState::DetectBuild));
    let s = pipeline_step(
        &cfg,
        &push,
        s,
        PipelineEvent::DetectInfo { dockerfile_present: true, nixpacks_detect_len: 0 },
    );
    assert!(matches!(s, PipelineState::BuildImage { variant: BuildVariant::Dockerfile }));
    let s = pipeline_step(&cfg, &push, s, PipelineEvent::ToolSucceeded);
    match &s {
        PipelineState::RetagImage { local, remote } => {
            assert_eq!(local.registry, "localhost");
            assert_eq!(local.repository, "blog");
            assert_eq!(local.tag, "abc123");
            assert_eq!(remote.registry, "registry.example.com");
            assert_eq!(remote.repository, "blog");
            assert_eq!(remote.tag, "abc123");
        }
        _ => panic!("a successful build with a registry leads to retagging"),
    }
    let s = pipeline_step(&cfg, &push, s, PipelineEvent::ToolSucceeded);
    assert!(matches!(s, PipelineState::PushImage { .. }));
    let s = pipeline_step(&cfg, &push, s, PipelineEvent::ToolSucceeded);
    match &s {
        PipelineState::RunDeploy { target } => {
            assert_eq!(target.repository, "blog");
            assert_eq!(target.tag, "abc123");
        }
        _ => panic!("a successful push with a GitOps repo leads to deploying"),
    }
    let s = pipeline_step(
        &cfg,
        &push,
        s,
        PipelineEvent::DeployFinished { result: Ok(DeployOutcome::Committed) },
    );
    assert!(matches!(s, PipelineState::Notify { outcome: DeployOutcome::Committed }));
    let s = pipeline_step(&cfg, &push, s, PipelineEvent::NotifyDelivered);
    match s {
        PipelineState::Finished { result } => {
            assert_eq!(result, Ok(PipelineOutcome::Notified(DeployOutcome::Committed)));
        }
        _ => panic!("a delivered webhook ends the pipeline"),
    }
}

#[test]
fn missing_registry_ends_in_build_only_mode() {
    let mut cfg = full_config();
    cfg.registry_host = None;
    let push = push_event();
    let s = pipeline_step(
        &cfg,
        &push,
        PipelineState::BuildImage { variant: BuildVariant::Nixpacks },
        PipelineEvent::ToolSucceeded,
    );
    match s {
        PipelineState::Finished { result } => assert_eq!(result, Ok(PipelineOutcome::Built)),
        _ => panic!("no registry means build-only mode"),
    }
}

#[test]
fn missing_gitops_repo_ends_after_push() {
    let mut cfg = full_config();
    cfg.gitops_repo = None;
    let push = push_event();
    let local = Image::local("blog", "abc123");
    let remote = local.to_remote("registry.example.com");
    let s = pipeline_step(
        &cfg,
        &push,
        PipelineState::PushImage { local, remote },
        PipelineEvent::ToolSucceeded,
    );
    match s {
        PipelineState::Finished { result } => assert_eq!(result, Ok(PipelineOutcome::Pushed)),
        _ => panic!("no GitOps repo means push-only mode"),
    }
}

#[test]
fn missing_webhook_ends_after_deploy() {
    let mut cfg = full_config();
    cfg.webhook_endpoint = None;
    let push = push_event();
    let image = Image::local("blog", "abc123").to_remote("registry.example.com");
    let target = micropaas::deploy::GitOpsTarget::new(&full_config(), &image);
    let s = pipeline_step(
        &cfg,
        &push,
        PipelineState::RunDeploy { target },
        PipelineEvent::DeployFinished { result: Ok(DeployOutcome::NoChanges) },
    );
    match s {
        PipelineState::Finished { result } => {
            assert_eq!(result, Ok(PipelineOutcome::Deployed(DeployOutcome::NoChanges)));
        }
        _ => panic!("no webhook endpoint means the pipeline ends at the deploy"),
    }
}

#[test]
fn deploy_errors_propagate() {
    let cfg = full_config();
    let push = push_event();
    let image = Image::local("blog", "abc123").to_remote("registry.example.com");
    let target = micropaas::deploy::GitOpsTarget::new(&cfg, &image);
    let s = pipeline_step(
        &cfg,
        &push,
        PipelineState::RunDeploy { target },
        PipelineEvent::DeployFinished { result: Err(DeployError::WorktreeConflict) },
    );
    match s {
        PipelineState::Finished { result } => {
            assert_eq!(result, Err(PipelineError::Deploy(DeployError::WorktreeConflict)));
        }
        _ => panic!("a deploy error is fatal"),
    }
}

#[test]
fn build_failure_is_fatal() {
    let cfg = full_config();
    let push = push_event();
    let s = pipeline_step(
        &cfg,
        &push,
        PipelineState::BuildImage { variant: BuildVariant::Dockerfile },
        PipelineEvent::ToolFailed,
    );
    match s {
        PipelineState::Finished { result } => assert_eq!(result, Err(PipelineError::BuildFailed)),
        _ => panic!("a failed build is fatal"),
    }
}

#[test]
fn workspace_failure_is_fatal() {
    let cfg = full_config();
    let push = push_event();
    let s = pipeline_step(
        &cfg,
        &push,
        PipelineState::SetupWorkspace,
        PipelineEvent::WorkspaceFailed,
    );
    match s {
        PipelineState::Finished { result } => {
            assert_eq!(result, Err(PipelineError::WorkspaceFailed));
        }
        _ => panic!("a failed workspace setup is fatal"),
    }
}

#[test]
fn tag_and_push_failures_name_the_image() {
    let cfg = full_config();
    let push = push_event();
    let local = Image::local("blog", "abc123");
    let remote = local.to_remote("registry.example.com");
    let s = pipeline_step(
        &cfg,
        &push,
        PipelineState::RetagImage { local, remote },
        PipelineEvent::ToolFailed,
    );
    match s {
        PipelineState::Finished { result: Err(PipelineError::TagFailed(img)) } => {
            assert_eq!(img, "registry.example.com/blog:abc123");
            assert_eq!(
                PipelineError::TagFailed(img).describe(),
                "failed to tag image registry.example.com/blog:abc123"
            );
        }
        _ => panic!("a failed retag is fatal and names the image"),
    }
    let local = Image::local("blog", "abc123");
    let remote = local.to_remote("registry.example.com");
    let s = pipeline_step(
        &cfg,
        &push,
        PipelineState::PushImage { local, remote },
        PipelineEvent::ToolFailed,
    );
    match s {
        PipelineState::Finished { result: Err(PipelineError::PushFailed(img)) } => {
            assert_eq!(img, "registry.example.com/blog:abc123");
            assert_eq!(
                PipelineError::PushFailed(img).describe(),
                "failed to push image registry.example.com/blog:abc123"
            );
        }
        _ => panic!("a failed push is fatal and names the image"),
    }
}

#[test]
fn pipeline_error_descriptions_name_the_condition() {
    assert_eq!(PipelineError::WorkspaceFailed.describe(), "failed to prepare workspace");
    assert_eq!(PipelineError::BuildFailed.describe(), "container build failed");
    assert_eq!(
        PipelineError::Deploy(DeployError::WorktreeConflict).describe(),
        "deploy failed: a deploy worktree already exists"
    );
    assert_eq!(PipelineError::NotifyFailed.describe(), "failed to deliver sync webhook");
}

#[test]
fn notify_transport_failure_is_fatal() {
    let cfg = full_config();
    let push = push_event();
    let s = pipeline_step(
        &cfg,
        &push,
        PipelineState::Notify { outcome: DeployOutcome::Committed },
        PipelineEvent::NotifyFailed,
    );
    assert!(matches!(
        s,
        PipelineState::Finished { result: Err(PipelineError::NotifyFailed) }
    ));
}

#[test]
fn ci_gate_requires_flake_and_makefile_target() {
    let makefile = Some(chars("build:\n\tcargo build\n\nci:\n\tcargo test\n"));
    assert!(ci_enabled(true, true, &makefile));
    assert!(!ci_enabled(false, true, &makefile));
    assert!(!ci_enabled(true, false, &makefile));
    assert!(!ci_enabled(true, true, &None));
    let without_target = Some(chars("build:\n\tcargo build\n"));
    assert!(!ci_enabled(true, true, &without_target));
    // a Makefile with carriage-return line endings still matches
    let crlf = Some(chars("build:\r\nci:\r\n"));
    assert!(ci_enabled(true, true, &crlf));
    // an indented or suffixed line is not the target
    let lookalike = Some(chars("  ci:\nci: extra\n"));
    assert!(!ci_enabled(true, true, &lookalike));
}

#[test]
fn builder_invocations_are_exact() {
    assert_eq!(build_program(&BuildVariant::Dockerfile), "docker");
    assert_eq!(build_program(&BuildVariant::Nixpacks), "nixpacks");
    assert_eq!(
        build_args(&BuildVariant::Dockerfile, "blog", "abc123"),
        vec!["build", ".", "--tag", "localhost/blog:abc123"]
    );
    assert_eq!(
        build_args(&BuildVariant::Nixpacks, "blog", "abc123"),
        vec!["build", ".", "--cache-key", "blog", "--tag", "localhost/blog:abc123"]
    );
}

#[test]
fn ci_invocation_is_exact() {
    assert_eq!(
        ci_args("blog", "refs/heads/master", "old0", "new1"),
        vec![
            "develop",
            "--quiet",
            "--command",
            "make",
            "ci",
            "REF_NAME=refs/heads/master",
            "OLD_OBJECT=old0",
            "NEW_OBJECT=new1",
            "CACHE_DIR=/var/cache/micropaas/blog/refs/heads/master"
        ]
    );
}

#[test]
fn image_reference_is_exact() {
    let local = Image::local("blog", "abc123");
    assert_eq!(local.reference(), "localhost/blog:abc123");
    let remote = local.to_remote("registry.example.com");
    assert_eq!(remote.reference(), "registry.example.com/blog:abc123");
}

#[test]
fn workspace_worktree_invocation_is_exact() {
    assert_eq!(
        workspace_worktree_args("/tmp/ws.1", "abc123"),
        vec!["worktree", "add", "--quiet", "/tmp/ws.1", "abc123"]
    );
}

#[test]
fn notify_sends_the_fixed_push_event_shape() {
    // repository "blog", endpoint http://example/webhook
    let payload = webhook_payload("blog");
    assert_eq!(
        payload,
        "{\"ref\":\"refs/heads/master\",\"before\":\"0000000000000000000000000000000000000000\",\"after\":\"0000000000000000000000000000000000000000\",\"commits\":[{\"added\":[],\"modified\":[],\"removed\":[]}],\"repository\":{\"html_url\":\"http://micropaas.micropaas.svc.cluster.local:8080/blog\",\"default_branch\":\"master\"}}"
    );
    let headers = webhook_headers();
    assert_eq!(headers.len(), 2);
    assert_eq!(headers[0].0, "Content-Type");
    assert_eq!(headers[0].1, "application/json");
    assert_eq!(headers[1].0, "X-GitHub-Event");
    assert_eq!(headers[1].1, "push");

    let cfg = full_config();
    let push = push_event();
    match pipeline_action(
        &cfg,
        &push,
        &PipelineState::Notify { outcome: DeployOutcome::Committed },
    ) {
        PipelineAction::PostWebhook { endpoint, payload: p, headers: h } => {
            assert_eq!(endpoint, "http://example/webhook");
            assert!(p.contains("http://micropaas.micropaas.svc.cluster.local:8080/blog"));
            assert_eq!(h.len(), 2);
        }
        _ => panic!("the notify state posts the webhook"),
    }
}

#[test]
fn docker_actions_are_exact() {
    let cfg = full_config();
    let push = push_event();
    let local = Image::local("blog", "abc123");
    let remote = local.to_remote("registry.example.com");
    match pipeline_action(&cfg, &push, &PipelineState::RetagImage { local, remote }) {
        PipelineAction::RunDocker { args } => {
            assert_eq!(
                args,
                vec!["tag", "localhost/blog:abc123", "registry.example.com/blog:abc123"]
            );
        }
        _ => panic!("retagging runs docker"),
    }
    let local = Image::local("blog", "abc123");
    let remote = local.to_remote("registry.example.com");
    match pipeline_action(&cfg, &push, &PipelineState::PushImage { local, remote }) {
        PipelineAction::RunDocker { args } => {
            assert_eq!(args, vec!["push", "--quiet", "registry.example.com/blog:abc123"]);
        }
        _ => panic!("pushing runs docker"),
    }
}
