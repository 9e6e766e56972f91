use vstd::prelude::*;
use vstd::string::StringExecFns;

use crate::json::{spec_get_i64, spec_get_str, Json};
use crate::request::{repo_path_idx, Method, RequestPlan};
use crate::response::spec_or;
use crate::strutil::{i64_to_string, join, push_part, spec_i64_string, spec_join};

verus! {

pub struct PrFilesParams {
    /// Repository owner. Optional if `directory` is provided.
    pub owner: Option<String>,
    /// Repository name. Optional if `directory` is provided.
    pub repo: Option<String>,
    /// Local directory to auto-detect owner/repo from.
    pub directory: Option<String>,
    /// Pull request number.
    pub index: i64,
}

pub struct PrDiffParams {
    /// Repository owner. Optional if `directory` is provided.
    pub owner: Option<String>,
    /// Repository name. Optional if `directory` is provided.
    pub repo: Option<String>,
    /// Local directory to auto-detect owner/repo from.
    pub directory: Option<String>,
    /// Pull request number.
    pub index: i64,
}

/// Plan the changed-file listing call.
pub fn pr_files_plan(owner: &str, repo: &str, p: &PrFilesParams) -> (plan: RequestPlan)
    ensures
        plan.method == Method::Get,
        plan.path@ == "/repos/"@ + owner@ + "/"@ + repo@ + "/pulls/"@ + spec_i64_string(
            p.index as int,
        ) + "/files"@,
        plan.query.deep_view() == Seq::<(Seq<char>, Seq<char>)>::empty(),
        plan.body is None,
{
    RequestPlan {
        method: Method::Get,
        path: repo_path_idx(owner, repo, "/pulls/", p.index, "/files"),
        query: Vec::new(),
        body: None,
    }
}

/// One line of a changed-file listing: name, change status, and diff
/// stats, each with its fallback.
pub open spec fn spec_pr_file_line(j: Json) -> Seq<char> {
    let filename = spec_or(spec_get_str(j, "filename"@), "unknown"@);
    let status = spec_or(spec_get_str(j, "status"@), "modified"@);
    let additions: int = match spec_get_i64(j, "additions"@) {
        Some(n) => n as int,
        None => 0,
    };
    let deletions: int = match spec_get_i64(j, "deletions"@) {
        Some(n) => n as int,
        None => 0,
    };
    "- "@ + filename + " ("@ + status + ") +"@ + spec_i64_string(additions) + " -"@
        + spec_i64_string(deletions)
}

/// The lines of a changed-file listing.
pub open spec fn spec_pr_file_lines(items: Seq<Json>) -> Seq<Seq<char>>
    decreases items.len(),
{
    if items.len() == 0 {
        Seq::empty()
    } else {
        spec_pr_file_lines(items.subrange(0, items.len() - 1)).push(
            spec_pr_file_line(items[items.len() - 1]),
        )
    }
}

/// What the changed-file listing renders for a response value.
pub open spec fn spec_pr_files_render(v: Json) -> Seq<char> {
    let items = match v {
        Json::Arr(i) => i@,
        _ => Seq::<Json>::empty(),
    };
    if items.len() == 0 {
        "No changed files."@
    } else {
        spec_join(spec_pr_file_lines(items), "\n"@)
    }
}

/// Render the changed-file listing response.
pub fn pr_files_render(val: &Json) -> (r: String)
    ensures
        r@ == spec_pr_files_render(*val),
{
    let items: &Vec<Json> = match val {
        Json::Arr(items) => items,
        _ => {
            return String::from_str("No changed files.");
        },
    };
    if items.len() == 0 {
        return String::from_str("No changed files.");
    }
    let mut lines: Vec<String> = Vec::new();
    let n = items.len();
    let mut i: usize = 0;
    while i < n
        invariant
            0 <= i <= n,
            n == items@.len(),
            lines.deep_view() == spec_pr_file_lines(items@.subrange(0, i as int)),
        decreases n - i,
    {
        let j = &items[i];
        let mut line = String::from_str("- ");
        match j.get_str("filename") {
            Some(s) => line.append(s.as_str()),
            None => line.append("unknown"),
        }
        line.append(" (");
        match j.get_str("status") {
            Some(s) => line.append(s.as_str()),
            None => line.append("modified"),
        }
        line.append(") +");
        let additions = match j.get_i64("additions") {
            Some(x) => x,
            None => 0,
        };
        let num = i64_to_string(additions);
        line.append(num.as_str());
        line.append(" -");
        let deletions = match j.get_i64("deletions") {
            Some(x) => x,
            None => 0,
        };
        let num2 = i64_to_string(deletions);
        line.append(num2.as_str());
        push_part(&mut lines, line);
        proof {
            let now = items@.subrange(0, i + 1);
            assert(now.subrange(0, now.len() - 1) =~= items@.subrange(0, i as int));
            assert(now[now.len() - 1] == items@[i as int]);
            assert(lines.deep_view() =~= spec_pr_file_lines(now));
        }
        i += 1;
    }
    proof {
        assert(items@.subrange(0, items@.len() as int) =~= items@);
    }
    join(&lines, "\n")
}

/// Plan the raw diff fetch for a pull request.
pub fn pr_diff_plan(owner: &str, repo: &str, p: &PrDiffParams) -> (plan: RequestPlan)
    ensures
        plan.method == Method::GetRaw,
        plan.path@ == "/repos/"@ + owner@ + "/"@ + repo@ + "/pulls/"@ + spec_i64_string(
            p.index as int,
        ) + ".diff"@,
        plan.query.deep_view() == Seq::<(Seq<char>, Seq<char>)>::empty(),
        plan.body is None,
{
    RequestPlan {
        method: Method::GetRaw,
        path: repo_path_idx(owner, repo, "/pulls/", p.index, ".diff"),
        query: Vec::new(),
        body: None,
    }
}

} // verus!
