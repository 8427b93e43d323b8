//! The pipeline's configuration, collected once at startup and passed through
//! every stage. An absent optional value switches its stage off; the pipeline
//! never reads the process environment itself.

use vstd::prelude::*;
use vstd::string::*;

verus! {

/// Everything the pipeline is configured with. `repository` is required;
/// each optional value gates one stage: `registry_host` the push,
/// `gitops_repo` the deploy, `webhook_endpoint` the sync notification.
pub struct Config {
    pub repository: String,
    pub registry_host: Option<String>,
    pub gitops_repo: Option<String>,
    pub default_branch: Option<String>,
    pub git_user_name: Option<String>,
    pub git_user_email: Option<String>,
    pub webhook_endpoint: Option<String>,
}

/// An optional setting, or its default.
pub open spec fn or_default_spec(v: Option<String>, d: Seq<char>) -> Seq<char> {
    match v {
        Some(s) => s@,
        None => d,
    }
}

fn clone_or(v: &Option<String>, d: &str) -> (r: String)
    ensures
        r@ == or_default_spec(*v, d@),
{
    match v {
        Some(s) => s.clone(),
        None => String::from_str(d),
    }
}

impl Config {
    /// The GitOps default branch, `master` when unset.
    pub fn branch_or_default(&self) -> (r: String)
        ensures
            r@ == or_default_spec(self.default_branch, "master"@),
    {
        clone_or(&self.default_branch, "master")
    }

    /// The commit author name, a bot identity when unset.
    pub fn user_name_or_default(&self) -> (r: String)
        ensures
            r@ == or_default_spec(self.git_user_name, "Bot"@),
    {
        clone_or(&self.git_user_name, "Bot")
    }

    /// The commit author address, a bot identity when unset.
    pub fn user_email_or_default(&self) -> (r: String)
        ensures
            r@ == or_default_spec(self.git_user_email, "bot@example.com"@),
    {
        clone_or(&self.git_user_email, "bot@example.com")
    }
}

} // verus!
