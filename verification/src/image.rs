//! Container image references. A freshly built image is tagged under the
//! local registry; pushing produces a new value under the remote registry
//! with repository and tag preserved.

use vstd::prelude::*;
use vstd::string::*;

verus! {

/// A fully qualified container image reference.
pub struct Image {
    pub registry: String,
    pub repository: String,
    pub tag: String,
}

/// The textual reference `registry/repository:tag`.
pub open spec fn image_ref_spec(i: &Image) -> Seq<char> {
    i.registry@ + "/"@ + i.repository@ + ":"@ + i.tag@
}

impl Image {
    /// A locally tagged image, fresh from a build.
    pub fn local(repository: &str, tag: &str) -> (r: Image)
        ensures
            r.registry@ == "localhost"@,
            r.repository@ == repository@,
            r.tag@ == tag@,
    {
        Image {
            registry: String::from_str("localhost"),
            repository: String::from_str(repository),
            tag: String::from_str(tag),
        }
    }

    /// The same image under a remote registry: only the registry changes,
    /// repository and tag are preserved.
    pub fn to_remote(&self, registry: &str) -> (r: Image)
        ensures
            r.registry@ == registry@,
            r.repository@ == self.repository@,
            r.tag@ == self.tag@,
    {
        Image {
            registry: String::from_str(registry),
            repository: self.repository.clone(),
            tag: self.tag.clone(),
        }
    }

    /// The textual reference `registry/repository:tag`.
    pub fn reference(&self) -> (r: String)
        ensures
            r@ == image_ref_spec(self),
    {
        let mut r = String::new();
        r.append(self.registry.as_str());
        r.append("/");
        r.append(self.repository.as_str());
        r.append(":");
        r.append(self.tag.as_str());
        proof {
            assert(r@ =~= image_ref_spec(self));
        }
        r
    }
}

/// Arguments retagging a local image under the remote registry:
/// `tag <local> <remote>`.
pub fn retag_args(local: &Image, remote: &Image) -> (r: Vec<String>)
    ensures
        r.deep_view() == seq!["tag"@, image_ref_spec(local), image_ref_spec(remote)],
{
    let mut r: Vec<String> = Vec::new();
    r.push(String::from_str("tag"));
    r.push(local.reference());
    r.push(remote.reference());
    proof {
        assert(r.deep_view() =~= seq!["tag"@, image_ref_spec(local), image_ref_spec(remote)]);
    }
    r
}

/// Arguments pushing the remote image: `push --quiet <remote>`.
pub fn push_args(remote: &Image) -> (r: Vec<String>)
    ensures
        r.deep_view() == seq!["push"@, "--quiet"@, image_ref_spec(remote)],
{
    let mut r: Vec<String> = Vec::new();
    r.push(String::from_str("push"));
    r.push(String::from_str("--quiet"));
    r.push(remote.reference());
    proof {
        assert(r.deep_view() =~= seq!["push"@, "--quiet"@, image_ref_spec(remote)]);
    }
    r
}

} // verus!
