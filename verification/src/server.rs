use vstd::prelude::*;
use vstd::string::StrSliceExecFns;
use vstd::string::StringExecFns;

use crate::json::{json_escaped, spec_escaped};
use crate::repo_resolver::RepoInfo;

verus! {

/// The URI under which the startup-detected repository is published.
pub fn resource_uri() -> (r: &'static str)
    ensures
        r@ == "repo://detected"@,
{
    "repo://detected"
}

/// The JSON text of the detected-repository resource: an object carrying
/// the owner and the repository name.
pub fn detected_repo_json(info: &RepoInfo) -> (r: String)
    ensures
        r@ == "{\"owner\":\""@ + spec_escaped(info.owner@) + "\",\"repo\":\""@ + spec_escaped(
            info.repo@,
        ) + "\"}"@,
{
    let mut s = String::from_str("{\"owner\":\"");
    let eo = json_escaped(info.owner.as_str());
    s.append(eo.as_str());
    s.append("\",\"repo\":\"");
    let er = json_escaped(info.repo.as_str());
    s.append(er.as_str());
    s.append("\"}");
    s
}

/// Which source the owner/repo resolution chain selects for a tool call.
/// The two locate choices name where the repository locator must run; the
/// caller performs that lookup and propagates its failure.
#[derive(Debug)]
pub enum RepoChoice {
    /// Both explicit coordinates were given and non-empty: use them verbatim.
    Explicit(RepoInfo),
    /// A non-empty directory override was given: locate the repository there.
    Directory(String),
    /// Use the repository detected at startup.
    Detected(RepoInfo),
    /// Nothing else applied: locate the repository in the working directory.
    WorkingDir,
}

/// Whether both explicit coordinates are present and non-empty. An empty
/// string counts as absent, guarding against callers that pass `""`
/// instead of omitting a field; one coordinate alone never counts.
pub open spec fn spec_has_explicit(owner: Option<String>, repo: Option<String>) -> bool {
    match (owner, repo) {
        (Some(o), Some(r)) => o@.len() > 0 && r@.len() > 0,
        _ => false,
    }
}

/// Whether a non-empty directory override is present.
pub open spec fn spec_has_directory(directory: Option<String>) -> bool {
    match directory {
        Some(d) => d@.len() > 0,
        _ => false,
    }
}

/// Resolve which repository a tool call targets, in strict precedence:
/// explicit owner and repo when both are non-empty; else a non-empty
/// directory override; else the startup-detected default; else the working
/// directory.
pub fn resolve_owner_repo(
    owner: &Option<String>,
    repo: &Option<String>,
    directory: &Option<String>,
    default_repo: &Option<RepoInfo>,
) -> (r: RepoChoice)
    ensures
        match r {
            RepoChoice::Explicit(info) => {
                &&& spec_has_explicit(*owner, *repo)
                &&& *owner matches Some(o) && o@ == info.owner@
                &&& *repo matches Some(p) && p@ == info.repo@
            },
            RepoChoice::Directory(d) => {
                &&& !spec_has_explicit(*owner, *repo)
                &&& *directory matches Some(dd) && dd@ == d@ && d@.len() > 0
            },
            RepoChoice::Detected(info) => {
                &&& !spec_has_explicit(*owner, *repo)
                &&& !spec_has_directory(*directory)
                &&& *default_repo matches Some(i) && i.owner@ == info.owner@ && i.repo@
                    == info.repo@
            },
            RepoChoice::WorkingDir => {
                &&& !spec_has_explicit(*owner, *repo)
                &&& !spec_has_directory(*directory)
                &&& *default_repo is None
            },
        },
{
    if let (Some(o), Some(r)) = (owner, repo) {
        if !o.as_str().is_empty() && !r.as_str().is_empty() {
            return RepoChoice::Explicit(RepoInfo { owner: o.clone(), repo: r.clone() });
        }
    }
    if let Some(d) = directory {
        if !d.as_str().is_empty() {
            return RepoChoice::Directory(d.clone());
        }
    }
    if let Some(info) = default_repo {
        return RepoChoice::Detected(
            RepoInfo { owner: info.owner.clone(), repo: info.repo.clone() },
        );
    }
    RepoChoice::WorkingDir
}

} // verus!
