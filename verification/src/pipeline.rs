//! The pipeline orchestrator: workspace, best-effort CI, detection, build,
//! and the configuration-gated push, deploy and notify stages.
//!
//! Like the deploy stage, the orchestrator is a state machine: the caller
//! performs each stage and reports back, `pipeline_step` decides what runs
//! next. A stage whose configuration is absent is skipped with the pipeline
//! ending successfully in the mode the configuration selects (build-only,
//! build+push, or full). A hard failure of an executed stage ends the
//! pipeline at once; the CI stage is fire-and-forget.

use vstd::prelude::*;
use vstd::string::*;
use crate::builder::{
    build_args, build_env_vars, build_program, ci_args, ci_enabled, detect, has_ci_target,
    local_tag_spec, BuildVariant,
};
use crate::config::{or_default_spec, Config};
use crate::deploy::GitOpsTarget;
use crate::errors::{deploy_error_text, DeployError, DeployOutcome};
use crate::image::{image_ref_spec, push_args, retag_args, Image};
use crate::text::lines_of;
use crate::webhook::{payload_spec, webhook_headers, webhook_payload};

verus! {

/// What was pushed: the ref and the old and new commit objects, as the hook
/// receives them. An all-zero `old_object` signifies a new ref.
pub struct PushEvent {
    pub ref_name: String,
    pub old_object: String,
    pub new_object: String,
}

/// How a completed pipeline ended; each mode short of the full one reflects
/// configuration that switched the later stages off.
#[derive(Clone, Copy, Debug, PartialEq, Eq, Structural)]
pub enum PipelineOutcome {
    /// The tree holds no buildable code: an expected skip, not an error.
    NotBuildable,
    /// Built; no registry configured, so nothing was pushed.
    Built,
    /// Pushed; no GitOps repository configured, so nothing was deployed.
    Pushed,
    /// Deployed; no webhook endpoint configured, so nobody was notified.
    Deployed(DeployOutcome),
    /// The full pipeline ran.
    Notified(DeployOutcome),
}

/// A fatal pipeline condition. The push-stage failures carry the remote
/// image reference for diagnostics, so the operator sees which image could
/// not be retagged or pushed.
#[derive(Clone, Debug, PartialEq, Eq)]
pub enum PipelineError {
    /// The pushed commit could not be materialized into a workspace.
    WorkspaceFailed,
    /// The builder subprocess failed.
    BuildFailed,
    /// Retagging the image under the remote registry failed; carries the
    /// remote reference `registry/repository:tag`.
    TagFailed(String),
    /// Pushing the retagged image failed; carries the same remote reference.
    PushFailed(String),
    /// The deploy stage failed.
    Deploy(DeployError),
    /// The sync webhook could not be delivered at the transport layer.
    NotifyFailed,
}

/// Whether two pipeline errors report the same condition, image references
/// compared by their characters.
pub open spec fn same_pipeline_error(a: PipelineError, b: PipelineError) -> bool {
    match (a, b) {
        (PipelineError::WorkspaceFailed, PipelineError::WorkspaceFailed) => true,
        (PipelineError::BuildFailed, PipelineError::BuildFailed) => true,
        (PipelineError::TagFailed(x), PipelineError::TagFailed(y)) => x@ == y@,
        (PipelineError::PushFailed(x), PipelineError::PushFailed(y)) => x@ == y@,
        (PipelineError::Deploy(x), PipelineError::Deploy(y)) => x == y,
        (PipelineError::NotifyFailed, PipelineError::NotifyFailed) => true,
        _ => false,
    }
}

/// Whether two pipeline results report the same thing.
pub open spec fn same_pipeline_result(
    a: Result<PipelineOutcome, PipelineError>,
    b: Result<PipelineOutcome, PipelineError>,
) -> bool {
    match (a, b) {
        (Ok(x), Ok(y)) => x == y,
        (Err(x), Err(y)) => same_pipeline_error(x, y),
        _ => false,
    }
}

/// The short description of a pipeline error, for operator output; the
/// push-stage messages name the remote image reference.
pub open spec fn pipeline_error_text(e: PipelineError) -> Seq<char> {
    match e {
        PipelineError::WorkspaceFailed => "failed to prepare workspace"@,
        PipelineError::BuildFailed => "container build failed"@,
        PipelineError::TagFailed(img) => "failed to tag image "@ + img@,
        PipelineError::PushFailed(img) => "failed to push image "@ + img@,
        PipelineError::Deploy(d) => "deploy failed: "@ + deploy_error_text(d),
        PipelineError::NotifyFailed => "failed to deliver sync webhook"@,
    }
}

impl PipelineError {
    /// A short description, for operator output; for a failed retag or push
    /// it names the remote image reference.
    pub fn describe(&self) -> (r: String)
        ensures
            r@ == pipeline_error_text(*self),
    {
        match self {
            PipelineError::WorkspaceFailed => String::from_str("failed to prepare workspace"),
            PipelineError::BuildFailed => String::from_str("container build failed"),
            PipelineError::TagFailed(img) => {
                let mut r = String::from_str("failed to tag image ");
                r.append(img.as_str());
                r
            },
            PipelineError::PushFailed(img) => {
                let mut r = String::from_str("failed to push image ");
                r.append(img.as_str());
                r
            },
            PipelineError::Deploy(d) => {
                let mut r = String::from_str("deploy failed: ");
                r.append(d.describe());
                r
            },
            PipelineError::NotifyFailed => String::from_str("failed to deliver sync webhook"),
        }
    }
}

/// An owned copy of a pipeline result.
fn clone_result(r: &Result<PipelineOutcome, PipelineError>) -> (c: Result<
    PipelineOutcome,
    PipelineError,
>)
    ensures
        same_pipeline_result(c, *r),
{
    match r {
        Ok(o) => Ok(*o),
        Err(e) => Err(
            match e {
                PipelineError::WorkspaceFailed => PipelineError::WorkspaceFailed,
                PipelineError::BuildFailed => PipelineError::BuildFailed,
                PipelineError::TagFailed(img) => PipelineError::TagFailed(img.clone()),
                PipelineError::PushFailed(img) => PipelineError::PushFailed(img.clone()),
                PipelineError::Deploy(d) => PipelineError::Deploy(*d),
                PipelineError::NotifyFailed => PipelineError::NotifyFailed,
            },
        ),
    }
}

/// Where the pipeline stands. Each state waits for one report.
pub enum PipelineState {
    /// Materialize the pushed commit into a disposable workspace.
    SetupWorkspace,
    /// Look for a CI recipe in the tree.
    CheckCi,
    /// Run the CI recipe; its outcome does not gate the pipeline.
    RunCi,
    /// Classify the tree into a buildable variant.
    DetectBuild,
    /// Run the variant's builder.
    BuildImage { variant: BuildVariant },
    /// Retag the local image under the remote registry.
    RetagImage { local: Image, remote: Image },
    /// Push the retagged image.
    PushImage { local: Image, remote: Image },
    /// Drive the deploy protocol against this target.
    RunDeploy { target: GitOpsTarget },
    /// Deliver the sync webhook.
    Notify { outcome: DeployOutcome },
    /// The pipeline is over.
    Finished { result: Result<PipelineOutcome, PipelineError> },
}

/// What the caller reports back after performing a stage.
pub enum PipelineEvent {
    WorkspaceReady,
    WorkspaceFailed,
    /// Whether `flake.nix`, `flake.lock` and a `Makefile` exist at the tree
    /// root, and the Makefile's text where it does.
    CiInfo { flake_nix: bool, flake_lock: bool, makefile: Option<Vec<char>> },
    CiFinished,
    /// Whether a `Dockerfile` exists at the tree root, and how long the
    /// Nixpacks detector's report was.
    DetectInfo { dockerfile_present: bool, nixpacks_detect_len: usize },
    ToolSucceeded,
    ToolFailed,
    DeployFinished { result: Result<DeployOutcome, DeployError> },
    NotifyDelivered,
    NotifyFailed,
}

/// The orchestrator's transition graph, irrespective of events: which states
/// can follow which, and with which payloads and terminal results. Whatever
/// is reported back, a state can only advance along the protocol, stall in
/// place, or end with one of its own stage's results.
pub open spec fn pipeline_edge(s: PipelineState, r: PipelineState) -> bool {
    match s {
        PipelineState::SetupWorkspace => {
            ||| r is CheckCi
            ||| (r matches PipelineState::Finished { result } && result == Err::<
                PipelineOutcome,
                PipelineError,
            >(PipelineError::WorkspaceFailed))
            ||| r == s
        },
        PipelineState::CheckCi => {
            ||| r is RunCi
            ||| r is DetectBuild
            ||| r == s
        },
        PipelineState::RunCi => {
            ||| r is DetectBuild
            ||| r == s
        },
        PipelineState::DetectBuild => {
            ||| r is BuildImage
            ||| (r matches PipelineState::Finished { result } && result == Ok::<
                PipelineOutcome,
                PipelineError,
            >(PipelineOutcome::NotBuildable))
            ||| r == s
        },
        PipelineState::BuildImage { .. } => {
            ||| r is RetagImage
            ||| (r matches PipelineState::Finished { result } && (result == Ok::<
                PipelineOutcome,
                PipelineError,
            >(PipelineOutcome::Built) || result == Err::<PipelineOutcome, PipelineError>(
                PipelineError::BuildFailed,
            )))
            ||| r == s
        },
        PipelineState::RetagImage { local, remote } => {
            ||| (r matches PipelineState::PushImage { local: l2, remote: r2 } && l2 == local && r2
                == remote)
            ||| (r matches PipelineState::Finished { result } && (result matches Err(
                PipelineError::TagFailed(img),
            ) && img@ == image_ref_spec(&remote)))
            ||| r == s
        },
        PipelineState::PushImage { local, remote } => {
            ||| r is RunDeploy
            ||| (r matches PipelineState::Finished { result } && (result == Ok::<
                PipelineOutcome,
                PipelineError,
            >(PipelineOutcome::Pushed) || (result matches Err(PipelineError::PushFailed(img))
                && img@ == image_ref_spec(&remote))))
            ||| r == s
        },
        PipelineState::RunDeploy { .. } => {
            ||| r is Notify
            ||| (r matches PipelineState::Finished { result } && (result matches Ok(
                PipelineOutcome::Deployed(_),
            ) || result matches Err(PipelineError::Deploy(_))))
            ||| r == s
        },
        PipelineState::Notify { outcome } => {
            ||| (r matches PipelineState::Finished { result } && (result == Ok::<
                PipelineOutcome,
                PipelineError,
            >(PipelineOutcome::Notified(outcome)) || result == Err::<
                PipelineOutcome,
                PipelineError,
            >(PipelineError::NotifyFailed)))
            ||| r == s
        },
        PipelineState::Finished { .. } => r == s,
    }
}

/// One decision of the orchestrator: from the current state and the stage's
/// report to the next state.
///
/// Gating: after a successful build, a missing registry host ends the
/// pipeline at `Built`; after a successful push, a missing GitOps repository
/// ends it at `Pushed`; after a successful deploy, a missing webhook
/// endpoint ends it at `Deployed`. A tree that is neither Dockerfile nor
/// Nixpacks buildable ends the pipeline at `NotBuildable` without entering
/// the build stage, so no builder subprocess is ever requested for it. A
/// failed retag ends the pipeline before any push is requested, and both
/// push-stage failures carry the remote image reference.
pub fn pipeline_step(cfg: &Config, push: &PushEvent, s: PipelineState, e: PipelineEvent) -> (r:
    PipelineState)
    ensures
        pipeline_edge(s, r),
        s is Finished ==> r == s,
        s is SetupWorkspace && e is WorkspaceReady ==> r is CheckCi,
        s is SetupWorkspace && e is WorkspaceFailed ==> (r matches PipelineState::Finished {
            result,
        } && result == Err::<PipelineOutcome, PipelineError>(PipelineError::WorkspaceFailed)),
        s is CheckCi ==> (e matches PipelineEvent::CiInfo { flake_nix, flake_lock, makefile }
            ==> ((flake_nix && flake_lock && (match makefile {
            Some(m) => has_ci_target(lines_of(m@)),
            None => false,
        }) ==> r is RunCi) && (!(flake_nix && flake_lock && (match makefile {
            Some(m) => has_ci_target(lines_of(m@)),
            None => false,
        })) ==> r is DetectBuild))),
        s is RunCi && (e is CiFinished || e is ToolSucceeded || e is ToolFailed) ==> r
            is DetectBuild,
        s is DetectBuild ==> (e matches PipelineEvent::DetectInfo {
            dockerfile_present,
            nixpacks_detect_len,
        } ==> ((dockerfile_present ==> (r matches PipelineState::BuildImage { variant } && variant
            == BuildVariant::Dockerfile)) && (!dockerfile_present && nixpacks_detect_len > 1 ==> (
        r matches PipelineState::BuildImage { variant } && variant == BuildVariant::Nixpacks)) && (
        !dockerfile_present && nixpacks_detect_len <= 1 ==> (r matches PipelineState::Finished {
            result,
        } && result == Ok::<PipelineOutcome, PipelineError>(PipelineOutcome::NotBuildable))))),
        s is BuildImage && e is ToolFailed ==> (r matches PipelineState::Finished { result }
            && result == Err::<PipelineOutcome, PipelineError>(PipelineError::BuildFailed)),
        s is BuildImage && e is ToolSucceeded && cfg.registry_host is None ==> (r matches
            PipelineState::Finished { result } && result == Ok::<PipelineOutcome, PipelineError>(
            PipelineOutcome::Built,
        )),
        s is BuildImage && e is ToolSucceeded ==> (cfg.registry_host matches Some(reg) ==> (
        r matches PipelineState::RetagImage { local, remote } && local.registry@ == "localhost"@
            && local.repository@ == cfg.repository@ && local.tag@ == push.new_object@
            && remote.registry@ == reg@ && remote.repository@ == local.repository@ && remote.tag@
            == local.tag@)),
        s matches PipelineState::RetagImage { remote, .. } ==> (e is ToolFailed ==> (r matches
            PipelineState::Finished { result } && (result matches Err(PipelineError::TagFailed(
            img,
        )) && img@ == image_ref_spec(&remote)))),
        s matches PipelineState::RetagImage { local, remote } ==> (e is ToolSucceeded ==> (
        r matches PipelineState::PushImage { local: l2, remote: r2 } && l2 == local && r2
            == remote)),
        s matches PipelineState::PushImage { remote, .. } ==> (e is ToolFailed ==> (r matches
            PipelineState::Finished { result } && (result matches Err(PipelineError::PushFailed(
            img,
        )) && img@ == image_ref_spec(&remote)))),
        s is PushImage && e is ToolSucceeded && cfg.gitops_repo is None ==> (r matches
            PipelineState::Finished { result } && result == Ok::<PipelineOutcome, PipelineError>(
            PipelineOutcome::Pushed,
        )),
        s matches PipelineState::PushImage { remote, .. } ==> (e is ToolSucceeded ==> (
        cfg.gitops_repo matches Some(g) ==> (r matches PipelineState::RunDeploy { target }
            && target.bare_dir@ == "/var/lib/micropaas/repos/"@ + g@ + ".git"@ && target.branch@
            == or_default_spec(cfg.default_branch, "master"@) && target.worktree_dir@
            == target.bare_dir@ + "/"@ + target.branch@ && target.values_file@ == "apps/"@
            + cfg.repository@ + "/values.yaml"@ && target.repository@ == cfg.repository@
            && target.tag@ == remote.tag@ && target.user_name@ == or_default_spec(
            cfg.git_user_name,
            "Bot"@,
        ) && target.user_email@ == or_default_spec(cfg.git_user_email, "bot@example.com"@)))),
        s is RunDeploy ==> (e matches PipelineEvent::DeployFinished { result } ==> (match result {
            Err(err) => (r matches PipelineState::Finished { result: pr } && pr == Err::<
                PipelineOutcome,
                PipelineError,
            >(PipelineError::Deploy(err))),
            Ok(outcome) => ((cfg.webhook_endpoint is None ==> (r matches PipelineState::Finished {
                result: pr,
            } && pr == Ok::<PipelineOutcome, PipelineError>(PipelineOutcome::Deployed(outcome))))
                && (cfg.webhook_endpoint is Some ==> (r matches PipelineState::Notify {
                outcome: o2,
            } && o2 == outcome))),
        })),
        s matches PipelineState::Notify { outcome } ==> ((e is NotifyDelivered ==> (r matches
            PipelineState::Finished { result } && result == Ok::<PipelineOutcome, PipelineError>(
            PipelineOutcome::Notified(outcome),
        ))) && (e is NotifyFailed ==> (r matches PipelineState::Finished { result } && result
            == Err::<PipelineOutcome, PipelineError>(PipelineError::NotifyFailed)))),
{
    match s {
        PipelineState::SetupWorkspace => {
            match e {
                PipelineEvent::WorkspaceReady => PipelineState::CheckCi,
                PipelineEvent::WorkspaceFailed => PipelineState::Finished {
                    result: Err(PipelineError::WorkspaceFailed),
                },
                _ => PipelineState::SetupWorkspace,
            }
        },
        PipelineState::CheckCi => {
            match e {
                PipelineEvent::CiInfo { flake_nix, flake_lock, makefile } => {
                    if ci_enabled(flake_nix, flake_lock, &makefile) {
                        PipelineState::RunCi
                    } else {
                        PipelineState::DetectBuild
                    }
                },
                _ => PipelineState::CheckCi,
            }
        },
        PipelineState::RunCi => {
            match e {
                PipelineEvent::CiFinished | PipelineEvent::ToolSucceeded
                    | PipelineEvent::ToolFailed => PipelineState::DetectBuild,
                _ => PipelineState::RunCi,
            }
        },
        PipelineState::DetectBuild => {
            match e {
                PipelineEvent::DetectInfo { dockerfile_present, nixpacks_detect_len } => {
                    match detect(dockerfile_present, nixpacks_detect_len) {
                        Some(variant) => PipelineState::BuildImage { variant },
                        None => PipelineState::Finished {
                            result: Ok(PipelineOutcome::NotBuildable),
                        },
                    }
                },
                _ => PipelineState::DetectBuild,
            }
        },
        PipelineState::BuildImage { variant } => {
            match e {
                PipelineEvent::ToolSucceeded => {
                    match &cfg.registry_host {
                        None => PipelineState::Finished { result: Ok(PipelineOutcome::Built) },
                        Some(reg) => {
                            let local = Image::local(
                                cfg.repository.as_str(),
                                push.new_object.as_str(),
                            );
                            let remote = local.to_remote(reg.as_str());
                            PipelineState::RetagImage { local, remote }
                        },
                    }
                },
                PipelineEvent::ToolFailed => PipelineState::Finished {
                    result: Err(PipelineError::BuildFailed),
                },
                _ => PipelineState::BuildImage { variant },
            }
        },
        PipelineState::RetagImage { local, remote } => {
            match e {
                PipelineEvent::ToolSucceeded => PipelineState::PushImage { local, remote },
                PipelineEvent::ToolFailed => PipelineState::Finished {
                    result: Err(PipelineError::TagFailed(remote.reference())),
                },
                _ => PipelineState::RetagImage { local, remote },
            }
        },
        PipelineState::PushImage { local, remote } => {
            match e {
                PipelineEvent::ToolSucceeded => {
                    if cfg.gitops_repo.is_some() {
                        let target = GitOpsTarget::new(cfg, &remote);
                        PipelineState::RunDeploy { target }
                    } else {
                        PipelineState::Finished { result: Ok(PipelineOutcome::Pushed) }
                    }
                },
                PipelineEvent::ToolFailed => PipelineState::Finished {
                    result: Err(PipelineError::PushFailed(remote.reference())),
                },
                _ => PipelineState::PushImage { local, remote },
            }
        },
        PipelineState::RunDeploy { target } => {
            match e {
                PipelineEvent::DeployFinished { result } => {
                    match result {
                        Err(err) => PipelineState::Finished {
                            result: Err(PipelineError::Deploy(err)),
                        },
                        Ok(outcome) => {
                            if cfg.webhook_endpoint.is_some() {
                                PipelineState::Notify { outcome }
                            } else {
                                PipelineState::Finished {
                                    result: Ok(PipelineOutcome::Deployed(outcome)),
                                }
                            }
                        },
                    }
                },
                _ => PipelineState::RunDeploy { target },
            }
        },
        PipelineState::Notify { outcome } => {
            match e {
                PipelineEvent::NotifyDelivered => PipelineState::Finished {
                    result: Ok(PipelineOutcome::Notified(outcome)),
                },
                PipelineEvent::NotifyFailed => PipelineState::Finished {
                    result: Err(PipelineError::NotifyFailed),
                },
                _ => PipelineState::Notify { outcome },
            }
        },
        PipelineState::Finished { result } => PipelineState::Finished { result },
    }
}

/// What the caller must do in a state. The subprocess and webhook mechanics
/// live outside the library; the arguments they are given are built here.
pub enum PipelineAction {
    /// Create a disposable directory, attach a worktree of the pushed commit
    /// to it (`workspace_worktree_args`), and make it the working directory.
    PrepareWorkspace { new_object: String },
    /// Report which CI-related files exist at the tree root.
    GatherCiInfo,
    /// Run the CI recipe; the outcome is not allowed to gate the pipeline.
    RunCi { program: String, args: Vec<String> },
    /// Report Dockerfile presence and the Nixpacks detector's output length.
    GatherDetectInfo,
    /// Run the builder, streaming its output to the operator.
    RunBuilder { program: String, args: Vec<String>, env: Vec<(String, String)> },
    /// Run docker with these arguments.
    RunDocker { args: Vec<String> },
    /// Drive the deploy protocol with the state's target.
    StartDeploy,
    /// POST the payload to the endpoint with these headers; only a
    /// transport-level failure counts as `NotifyFailed`.
    PostWebhook { endpoint: String, payload: String, headers: Vec<(String, String)> },
    /// Nothing left to do; report the result.
    Report { result: Result<PipelineOutcome, PipelineError> },
}

/// The action a pipeline state waits on.
pub fn pipeline_action(cfg: &Config, push: &PushEvent, s: &PipelineState) -> (a: PipelineAction)
    ensures
        (*s is SetupWorkspace) ==> (a matches PipelineAction::PrepareWorkspace { new_object }
            && new_object@ == push.new_object@),
        (*s is CheckCi) ==> a is GatherCiInfo,
        (*s is RunCi) ==> (a matches PipelineAction::RunCi { program, args } && program@ == "nix"@
            && args.deep_view() == seq![
            "develop"@,
            "--quiet"@,
            "--command"@,
            "make"@,
            "ci"@,
            "REF_NAME="@ + push.ref_name@,
            "OLD_OBJECT="@ + push.old_object@,
            "NEW_OBJECT="@ + push.new_object@,
            "CACHE_DIR=/var/cache/micropaas/"@ + cfg.repository@ + "/"@ + push.ref_name@,
        ]),
        (*s is DetectBuild) ==> a is GatherDetectInfo,
        *s matches PipelineState::BuildImage { variant } ==> (a matches PipelineAction::RunBuilder {
            program,
            args,
            env,
        } && (variant is Dockerfile ==> program@ == "docker"@ && args.deep_view() == seq![
            "build"@,
            "."@,
            "--tag"@,
            local_tag_spec(cfg.repository@, push.new_object@),
        ] && env@.len() == 0) && (variant is Nixpacks ==> program@ == "nixpacks"@
            && args.deep_view() == seq![
            "build"@,
            "."@,
            "--cache-key"@,
            cfg.repository@,
            "--tag"@,
            local_tag_spec(cfg.repository@, push.new_object@),
        ] && env@.len() == 1 && env@[0].0@ == "CLICOLOR_FORCE"@ && env@[0].1@ == "true"@)),
        *s matches PipelineState::RetagImage { local, remote } ==> (a matches
            PipelineAction::RunDocker { args } && args.deep_view() == seq![
            "tag"@,
            image_ref_spec(&local),
            image_ref_spec(&remote),
        ]),
        *s matches PipelineState::PushImage { remote, .. } ==> (a matches
            PipelineAction::RunDocker { args } && args.deep_view() == seq![
            "push"@,
            "--quiet"@,
            image_ref_spec(&remote),
        ]),
        (*s is RunDeploy) ==> a is StartDeploy,
        (*s is Notify) ==> (cfg.webhook_endpoint matches Some(ep) ==> (a matches
            PipelineAction::PostWebhook { endpoint, payload, headers } && endpoint@ == ep@
            && payload@ == payload_spec(cfg.repository@) && headers@.len() == 2 && headers@[0].0@
            == "Content-Type"@ && headers@[0].1@ == "application/json"@ && headers@[1].0@
            == "X-GitHub-Event"@ && headers@[1].1@ == "push"@)),
        *s matches PipelineState::Finished { result } ==> (a matches PipelineAction::Report {
            result: rr,
        } && same_pipeline_result(rr, result)),
{
    match s {
        PipelineState::SetupWorkspace => PipelineAction::PrepareWorkspace {
            new_object: push.new_object.clone(),
        },
        PipelineState::CheckCi => PipelineAction::GatherCiInfo,
        PipelineState::RunCi => PipelineAction::RunCi {
            program: String::from_str("nix"),
            args: ci_args(
                cfg.repository.as_str(),
                push.ref_name.as_str(),
                push.old_object.as_str(),
                push.new_object.as_str(),
            ),
        },
        PipelineState::DetectBuild => PipelineAction::GatherDetectInfo,
        PipelineState::BuildImage { variant } => PipelineAction::RunBuilder {
            program: String::from_str(build_program(variant)),
            args: build_args(variant, cfg.repository.as_str(), push.new_object.as_str()),
            env: build_env_vars(variant),
        },
        PipelineState::RetagImage { local, remote } => PipelineAction::RunDocker {
            args: retag_args(local, remote),
        },
        PipelineState::PushImage { local: _, remote } => PipelineAction::RunDocker {
            args: push_args(remote),
        },
        PipelineState::RunDeploy { .. } => PipelineAction::StartDeploy,
        PipelineState::Notify { .. } => {
            match &cfg.webhook_endpoint {
                Some(ep) => PipelineAction::PostWebhook {
                    endpoint: ep.clone(),
                    payload: webhook_payload(cfg.repository.as_str()),
                    headers: webhook_headers(),
                },
                None => PipelineAction::PostWebhook {
                    endpoint: String::new(),
                    payload: webhook_payload(cfg.repository.as_str()),
                    headers: webhook_headers(),
                },
            }
        },
        PipelineState::Finished { result } => PipelineAction::Report {
            result: clone_result(result),
        },
    }
}

/// Arguments attaching a workspace worktree of the pushed commit:
/// `worktree add --quiet <dir> <new_object>`.
pub fn workspace_worktree_args(dir: &str, new_object: &str) -> (r: Vec<String>)
    ensures
        r.deep_view() == seq!["worktree"@, "add"@, "--quiet"@, dir@, new_object@],
{
    let mut r: Vec<String> = Vec::new();
    r.push(String::from_str("worktree"));
    r.push(String::from_str("add"));
    r.push(String::from_str("--quiet"));
    r.push(String::from_str(dir));
    r.push(String::from_str(new_object));
    proof {
        assert(r.deep_view() =~= seq!["worktree"@, "add"@, "--quiet"@, dir@, new_object@]);
    }
    r
}

} // verus!
