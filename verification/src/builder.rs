//! Build-type detection, builder invocations, and the best-effort CI gate.
//!
//! Detection is total and deterministic: a `Dockerfile` at the tree root wins
//! over everything else; otherwise a non-empty report from the Nixpacks
//! detector selects Nixpacks; otherwise the tree is not buildable, which is
//! an expected skip, not an error.

use vstd::prelude::*;
use vstd::string::*;
use crate::text::{chars_eq, lines_of, split_lines, str_to_chars, sub_chars, views_of};

verus! {

/// The closed set of buildable variants.
#[derive(Clone, Copy, Debug, PartialEq, Eq, Structural)]
pub enum BuildVariant {
    Dockerfile,
    Nixpacks,
}

/// Classify a checked-out tree. `dockerfile_present` reports whether a file
/// named `Dockerfile` exists at the tree root; `nixpacks_detect_len` is the
/// length of the Nixpacks detector's output, where more than one byte means
/// a non-empty report.
pub fn detect(dockerfile_present: bool, nixpacks_detect_len: usize) -> (r: Option<BuildVariant>)
    ensures
        dockerfile_present ==> r == Some(BuildVariant::Dockerfile),
        !dockerfile_present && nixpacks_detect_len > 1 ==> r == Some(BuildVariant::Nixpacks),
        !dockerfile_present && nixpacks_detect_len <= 1 ==> r is None,
{
    if dockerfile_present {
        Some(BuildVariant::Dockerfile)
    } else if nixpacks_detect_len > 1 {
        Some(BuildVariant::Nixpacks)
    } else {
        None
    }
}

/// The builder program a variant is built with.
pub fn build_program(v: &BuildVariant) -> (r: &'static str)
    ensures
        (*v is Dockerfile) ==> r@ == "docker"@,
        (*v is Nixpacks) ==> r@ == "nixpacks"@,
{
    match v {
        BuildVariant::Dockerfile => "docker",
        BuildVariant::Nixpacks => "nixpacks",
    }
}

/// The local tag a built image receives: `localhost/<repository>:<tag>`.
pub open spec fn local_tag_spec(repository: Seq<char>, tag: Seq<char>) -> Seq<char> {
    "localhost/"@ + repository + ":"@ + tag
}

fn local_tag(repository: &str, tag: &str) -> (r: String)
    ensures
        r@ == local_tag_spec(repository@, tag@),
{
    let mut r = String::from_str("localhost/");
    r.append(repository);
    r.append(":");
    r.append(tag);
    proof {
        assert(r@ =~= local_tag_spec(repository@, tag@));
    }
    r
}

/// The builder's arguments for a variant: `build . --tag <local>` for a
/// Dockerfile, `build . --cache-key <repository> --tag <local>` for
/// Nixpacks, with the cache keyed by repository.
pub fn build_args(v: &BuildVariant, repository: &str, tag: &str) -> (r: Vec<String>)
    ensures
        (*v is Dockerfile) ==> r.deep_view() == seq![
            "build"@,
            "."@,
            "--tag"@,
            local_tag_spec(repository@, tag@),
        ],
        (*v is Nixpacks) ==> r.deep_view() == seq![
            "build"@,
            "."@,
            "--cache-key"@,
            repository@,
            "--tag"@,
            local_tag_spec(repository@, tag@),
        ],
{
    let mut r: Vec<String> = Vec::new();
    r.push(String::from_str("build"));
    r.push(String::from_str("."));
    match v {
        BuildVariant::Dockerfile => {
            r.push(String::from_str("--tag"));
            r.push(local_tag(repository, tag));
            proof {
                assert(r.deep_view() =~= seq![
                    "build"@,
                    "."@,
                    "--tag"@,
                    local_tag_spec(repository@, tag@),
                ]);
            }
        },
        BuildVariant::Nixpacks => {
            r.push(String::from_str("--cache-key"));
            r.push(String::from_str(repository));
            r.push(String::from_str("--tag"));
            r.push(local_tag(repository, tag));
            proof {
                assert(r.deep_view() =~= seq![
                    "build"@,
                    "."@,
                    "--cache-key"@,
                    repository@,
                    "--tag"@,
                    local_tag_spec(repository@, tag@),
                ]);
            }
        },
    }
    r
}

/// Environment overrides for the builder subprocess: Nixpacks is asked to
/// keep its colored output when streamed to the operator.
pub fn build_env_vars(v: &BuildVariant) -> (r: Vec<(String, String)>)
    ensures
        (*v is Dockerfile) ==> r@.len() == 0,
        (*v is Nixpacks) ==> r@.len() == 1 && r@[0].0@ == "CLICOLOR_FORCE"@ && r@[0].1@
            == "true"@,
{
    let mut r: Vec<(String, String)> = Vec::new();
    match v {
        BuildVariant::Dockerfile => {},
        BuildVariant::Nixpacks => {
            r.push((String::from_str("CLICOLOR_FORCE"), String::from_str("true")));
        },
    }
    r
}

/// `s` without one trailing carriage return: how a line reads regardless of
/// the file's line-ending convention.
pub open spec fn strip_cr(s: Seq<char>) -> Seq<char> {
    if s.len() > 0 && s.last() == '\r' {
        s.drop_last()
    } else {
        s
    }
}

/// Whether one of the lines, a trailing carriage return ignored, is exactly
/// `ci:`.
pub open spec fn has_ci_target(lines: Seq<Seq<char>>) -> bool {
    exists|j: int| 0 <= j < lines.len() && strip_cr(#[trigger] lines[j]) == "ci:"@
}

/// Whether the tree carries a CI recipe: a nix flake with a lock file and a
/// `Makefile` holding a line that is exactly `ci:`.
pub fn ci_enabled(
    flake_nix_present: bool,
    flake_lock_present: bool,
    makefile: &Option<Vec<char>>,
) -> (r: bool)
    ensures
        r == (flake_nix_present && flake_lock_present && (match makefile {
            Some(m) => has_ci_target(lines_of(m@)),
            None => false,
        })),
{
    if !flake_nix_present || !flake_lock_present {
        return false;
    }
    match makefile {
        None => false,
        Some(m) => {
            let target = str_to_chars("ci:");
            let bodies = split_lines(m);
            let n = bodies.len();
            let mut i: usize = 0;
            while i < n
                invariant
                    flake_nix_present,
                    flake_lock_present,
                    makefile matches Some(mm) && mm@ == m@,
                    n == bodies@.len(),
                    i <= n,
                    target@ == "ci:"@,
                    views_of(bodies@) == lines_of(m@),
                    forall|j: int| 0 <= j < i ==> strip_cr(#[trigger] views_of(bodies@)[j]) != "ci:"@,
                decreases n - i,
            {
                let line = &bodies[i];
                let ll = line.len();
                let cut = if ll > 0 && line[ll - 1] == '\r' {
                    ll - 1
                } else {
                    ll
                };
                let stripped = sub_chars(line, 0, cut);
                proof {
                    assert(views_of(bodies@)[i as int] == line@);
                    assert(stripped@ =~= strip_cr(line@));
                }
                if chars_eq(&stripped, &target) {
                    proof {
                        assert(strip_cr(lines_of(m@)[i as int]) == "ci:"@);
                        assert(has_ci_target(lines_of(m@)));
                    }
                    return true;
                }
                i = i + 1;
            }
            proof {
                if has_ci_target(lines_of(m@)) {
                    let j = choose|j: int| 0 <= j < lines_of(m@).len() && strip_cr(
                        #[trigger] lines_of(m@)[j],
                    ) == "ci:"@;
                    assert(strip_cr(views_of(bodies@)[j]) == "ci:"@);
                    assert(false);
                }
            }
            false
        },
    }
}

/// The CI runner's arguments: a nix develop shell running `make ci` with the
/// push's identifiers and a per-repository, per-ref cache directory.
pub fn ci_args(repository: &str, ref_name: &str, old_object: &str, new_object: &str) -> (r: Vec<
    String,
>)
    ensures
        r.deep_view() == seq![
            "develop"@,
            "--quiet"@,
            "--command"@,
            "make"@,
            "ci"@,
            "REF_NAME="@ + ref_name@,
            "OLD_OBJECT="@ + old_object@,
            "NEW_OBJECT="@ + new_object@,
            "CACHE_DIR=/var/cache/micropaas/"@ + repository@ + "/"@ + ref_name@,
        ],
{
    let mut r: Vec<String> = Vec::new();
    r.push(String::from_str("develop"));
    r.push(String::from_str("--quiet"));
    r.push(String::from_str("--command"));
    r.push(String::from_str("make"));
    r.push(String::from_str("ci"));
    let mut a = String::from_str("REF_NAME=");
    a.append(ref_name);
    r.push(a);
    let mut b = String::from_str("OLD_OBJECT=");
    b.append(old_object);
    r.push(b);
    let mut c = String::from_str("NEW_OBJECT=");
    c.append(new_object);
    r.push(c);
    let mut d = String::from_str("CACHE_DIR=/var/cache/micropaas/");
    d.append(repository);
    d.append("/");
    d.append(ref_name);
    r.push(d);
    proof {
        assert(d@ =~= "CACHE_DIR=/var/cache/micropaas/"@ + repository@ + "/"@ + ref_name@);
        assert(r.deep_view() =~= seq![
            "develop"@,
            "--quiet"@,
            "--command"@,
            "make"@,
            "ci"@,
            "REF_NAME="@ + ref_name@,
            "OLD_OBJECT="@ + old_object@,
            "NEW_OBJECT="@ + new_object@,
            "CACHE_DIR=/var/cache/micropaas/"@ + repository@ + "/"@ + ref_name@,
        ]);
    }
    r
}

} // verus!
