//! The sync webhook: a fixed-shape JSON document mimicking a source-forge
//! push event, because the downstream reconciler understands only that shape.
//! The payload is built fresh per notification; only the repository name
//! varies.

use vstd::prelude::*;
use vstd::string::*;

verus! {

/// The characters before the repository name in the payload.
pub open spec fn payload_head() -> Seq<char> {
    "{\"ref\":\"refs/heads/master\",\"before\":\"0000000000000000000000000000000000000000\",\"after\":\"0000000000000000000000000000000000000000\",\"commits\":[{\"added\":[],\"modified\":[],\"removed\":[]}],\"repository\":{\"html_url\":\"http://micropaas.micropaas.svc.cluster.local:8080/"@
}

/// The characters after the repository name in the payload.
pub open spec fn payload_tail() -> Seq<char> {
    "\",\"default_branch\":\"master\"}}"@
}

/// The whole payload for a repository.
pub open spec fn payload_spec(repository: Seq<char>) -> Seq<char> {
    payload_head() + repository + payload_tail()
}

/// The JSON body of the push-event webhook for `repository`.
pub fn webhook_payload(repository: &str) -> (r: String)
    ensures
        r@ == payload_spec(repository@),
{
    let mut r = String::from_str(
        "{\"ref\":\"refs/heads/master\",\"before\":\"0000000000000000000000000000000000000000\",\"after\":\"0000000000000000000000000000000000000000\",\"commits\":[{\"added\":[],\"modified\":[],\"removed\":[]}],\"repository\":{\"html_url\":\"http://micropaas.micropaas.svc.cluster.local:8080/",
    );
    r.append(repository);
    r.append("\",\"default_branch\":\"master\"}}");
    proof {
        assert(r@ =~= payload_spec(repository@));
    }
    r
}

/// The two headers of the webhook request: a JSON content type, and the
/// event name the reconciler dispatches on.
pub fn webhook_headers() -> (r: Vec<(String, String)>)
    ensures
        r@.len() == 2,
        r@[0].0@ == "Content-Type"@,
        r@[0].1@ == "application/json"@,
        r@[1].0@ == "X-GitHub-Event"@,
        r@[1].1@ == "push"@,
{
    let mut r: Vec<(String, String)> = Vec::new();
    r.push((String::from_str("Content-Type"), String::from_str("application/json")));
    r.push((String::from_str("X-GitHub-Event"), String::from_str("push")));
    r
}

} // verus!
