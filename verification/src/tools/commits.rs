use vstd::prelude::*;
use vstd::string::StringExecFns;

use crate::json::{spec_get_arr, spec_get_str, Json};
use crate::request::{push_query, repo_path, repo_path_seg, Method, RequestPlan};
use crate::response::{
    format_commit_list, spec_commit_line, spec_commit_lines, spec_format_commit_list, spec_or,
};
use crate::strutil::{
    first_line, i64_to_string, join, push_part, short7, spec_i64_string, spec_join,
    spec_u64_string, u64_to_string,
};
use crate::types::common::{limit_value, page_value, spec_limit_value, spec_page_value};

verus! {

pub struct CommitListParams {
    /// Repository owner. Optional if `directory` is provided.
    pub owner: Option<String>,
    /// Repository name. Optional if `directory` is provided.
    pub repo: Option<String>,
    /// Local directory to auto-detect owner/repo from.
    pub directory: Option<String>,
    /// Branch, tag, or commit hash to list commits from.
    pub sha: Option<String>,
    /// Filter commits by file path.
    pub path: Option<String>,
    /// Page number (1-based). Defaults to 1.
    pub page: Option<i64>,
    /// Items per page (max 50). Defaults to 20.
    pub limit: Option<i64>,
}

pub struct CommitGetParams {
    /// Repository owner. Optional if `directory` is provided.
    pub owner: Option<String>,
    /// Repository name. Optional if `directory` is provided.
    pub repo: Option<String>,
    /// Local directory to auto-detect owner/repo from.
    pub directory: Option<String>,
    /// Commit hash.
    pub sha: String,
}

pub struct CommitDiffParams {
    /// Repository owner. Optional if `directory` is provided.
    pub owner: Option<String>,
    /// Repository name. Optional if `directory` is provided.
    pub repo: Option<String>,
    /// Local directory to auto-detect owner/repo from.
    pub directory: Option<String>,
    /// Commit hash.
    pub sha: String,
}

pub struct CommitCompareParams {
    /// Repository owner. Optional if `directory` is provided.
    pub owner: Option<String>,
    /// Repository name. Optional if `directory` is provided.
    pub repo: Option<String>,
    /// Local directory to auto-detect owner/repo from.
    pub directory: Option<String>,
    /// Base ref (branch, tag, or hash).
    pub base: String,
    /// Head ref (branch, tag, or hash).
    pub head: String,
}

/// Plan the commit listing call.
pub fn commit_list_plan(owner: &str, repo: &str, p: &CommitListParams) -> (plan: RequestPlan)
    ensures
        plan.method == Method::Get,
        plan.path@ == "/repos/"@ + owner@ + "/"@ + repo@ + "/commits"@,
        plan.query.deep_view() == (match p.sha {
            Some(s) => seq![("sha"@, s@)],
            None => Seq::<(Seq<char>, Seq<char>)>::empty(),
        }) + (match p.path {
            Some(pa) => seq![("path"@, pa@)],
            None => Seq::<(Seq<char>, Seq<char>)>::empty(),
        }) + seq![
            ("page"@, spec_i64_string(spec_page_value(p.page))),
            ("limit"@, spec_i64_string(spec_limit_value(p.limit))),
        ],
        plan.body is None,
{
    let mut q: Vec<(String, String)> = Vec::new();
    if let Some(s) = &p.sha {
        push_query(&mut q, "sha", s.clone());
    }
    if let Some(pa) = &p.path {
        push_query(&mut q, "path", pa.clone());
    }
    push_query(&mut q, "page", i64_to_string(page_value(&p.page)));
    push_query(&mut q, "limit", i64_to_string(limit_value(&p.limit)));
    proof {
        assert(q.deep_view() =~= (match p.sha {
            Some(s) => seq![("sha"@, s@)],
            None => Seq::<(Seq<char>, Seq<char>)>::empty(),
        }) + (match p.path {
            Some(pa) => seq![("path"@, pa@)],
            None => Seq::<(Seq<char>, Seq<char>)>::empty(),
        }) + seq![
            ("page"@, spec_i64_string(spec_page_value(p.page))),
            ("limit"@, spec_i64_string(spec_limit_value(p.limit))),
        ]);
    }
    RequestPlan {
        method: Method::Get,
        path: repo_path(owner, repo, "/commits"),
        query: q,
        body: None,
    }
}

/// What the commit listing renders for a response value.
pub open spec fn spec_commit_list_render(v: Json) -> Seq<char> {
    match v {
        Json::Arr(items) => spec_format_commit_list(items@),
        _ => spec_format_commit_list(Seq::<Json>::empty()),
    }
}

/// Render the commit listing response.
pub fn commit_list_render(val: &Json) -> (r: String)
    ensures
        r@ == spec_commit_list_render(*val),
{
    match val {
        Json::Arr(items) => format_commit_list(items),
        _ => {
            let empty: Vec<Json> = Vec::new();
            format_commit_list(&empty)
        },
    }
}

/// Plan the single commit fetch; its renderer is the normalizer's commit
/// formatter.
pub fn commit_get_plan(owner: &str, repo: &str, p: &CommitGetParams) -> (plan: RequestPlan)
    ensures
        plan.method == Method::Get,
        plan.path@ == "/repos/"@ + owner@ + "/"@ + repo@ + "/git/commits/"@ + p.sha@,
        plan.query.deep_view() == Seq::<(Seq<char>, Seq<char>)>::empty(),
        plan.body is None,
{
    let path = repo_path_seg(owner, repo, "/git/commits/", p.sha.as_str(), "");
    proof {
        reveal_strlit("");
        assert(path@ =~= "/repos/"@ + owner@ + "/"@ + repo@ + "/git/commits/"@ + p.sha@);
    }
    RequestPlan { method: Method::Get, path, query: Vec::new(), body: None }
}

/// Plan the raw commit diff fetch.
pub fn commit_diff_plan(owner: &str, repo: &str, p: &CommitDiffParams) -> (plan: RequestPlan)
    ensures
        plan.method == Method::GetRaw,
        plan.path@ == "/repos/"@ + owner@ + "/"@ + repo@ + "/git/commits/"@ + p.sha@ + ".diff"@,
        plan.query.deep_view() == Seq::<(Seq<char>, Seq<char>)>::empty(),
        plan.body is None,
{
    RequestPlan {
        method: Method::GetRaw,
        path: repo_path_seg(owner, repo, "/git/commits/", p.sha.as_str(), ".diff"),
        query: Vec::new(),
        body: None,
    }
}

/// Plan the two-ref comparison call.
pub fn commit_compare_plan(owner: &str, repo: &str, p: &CommitCompareParams) -> (plan: RequestPlan)
    ensures
        plan.method == Method::Get,
        plan.path@ == "/repos/"@ + owner@ + "/"@ + repo@ + "/compare/"@ + p.base@ + "..."@
            + p.head@,
        plan.query.deep_view() == Seq::<(Seq<char>, Seq<char>)>::empty(),
        plan.body is None,
{
    let mut path = repo_path_seg(owner, repo, "/compare/", p.base.as_str(), "...");
    path.append(p.head.as_str());
    RequestPlan { method: Method::Get, path, query: Vec::new(), body: None }
}

/// One changed-file line of a comparison.
pub open spec fn spec_compare_file_line(j: Json) -> Seq<char> {
    "- "@ + spec_or(spec_get_str(j, "filename"@), "unknown"@) + " ("@ + spec_or(
        spec_get_str(j, "status"@),
        "modified"@,
    ) + ")"@
}

/// The changed-file lines of a comparison.
pub open spec fn spec_compare_file_lines(items: Seq<Json>) -> Seq<Seq<char>>
    decreases items.len(),
{
    if items.len() == 0 {
        Seq::empty()
    } else {
        spec_compare_file_lines(items.subrange(0, items.len() - 1)).push(
            spec_compare_file_line(items[items.len() - 1]),
        )
    }
}

/// The parts of a comparison rendering: the commit count and one line per
/// commit, then the changed-file count and one line per file, the file
/// list clipped at fifty entries.
pub open spec fn spec_compare_parts(v: Json) -> Seq<Seq<char>> {
    (match spec_get_arr(v, "commits"@) {
        Some(cs) => seq!["**Commits:** "@ + spec_u64_string(cs.len() as int)] + spec_commit_lines(
            cs,
        ),
        None => Seq::<Seq<char>>::empty(),
    }) + (match spec_get_arr(v, "files"@) {
        Some(fs) => seq!["\n**Changed files:** "@ + spec_u64_string(fs.len() as int)]
            + spec_compare_file_lines(
            if fs.len() <= 50 {
                fs
            } else {
                fs.subrange(0, 50)
            },
        ),
        None => Seq::<Seq<char>>::empty(),
    })
}

/// What the comparison renders: its parts joined by newlines, or a
/// placeholder when the response names neither commits nor files.
pub open spec fn spec_compare_render(v: Json) -> Seq<char> {
    let parts = spec_compare_parts(v);
    if parts.len() == 0 {
        "No differences found."@
    } else {
        spec_join(parts, "\n"@)
    }
}

/// Render the comparison response.
pub fn commit_compare_render(val: &Json) -> (r: String)
    ensures
        r@ == spec_compare_render(*val),
{
    let mut parts: Vec<String> = Vec::new();
    match val.get_arr("commits") {
        Some(cs) => {
            let mut head = String::from_str("**Commits:** ");
            let num = u64_to_string(cs.len() as u64);
            head.append(num.as_str());
            push_part(&mut parts, head);
            let ghost base = parts.deep_view();
            let n = cs.len();
            let mut i: usize = 0;
            while i < n
                invariant
                    0 <= i <= n,
                    n == cs@.len(),
                    parts.deep_view() == base + spec_commit_lines(cs@.subrange(0, i as int)),
                decreases n - i,
            {
                let j = &cs[i];
                let mut line = String::from_str("- `");
                match j.get_str("sha") {
                    Some(s) => line.append(short7(s.as_str())),
                    None => line.append("???????"),
                }
                line.append("` ");
                match j.get2_str("commit", "message") {
                    Some(m) => line.append(first_line(m.as_str())),
                    None => {},
                }
                push_part(&mut parts, line);
                proof {
                    let now = cs@.subrange(0, i + 1);
                    assert(now.subrange(0, now.len() - 1) =~= cs@.subrange(0, i as int));
                    assert(now[now.len() - 1] == cs@[i as int]);
                    assert(line@ == spec_commit_line(cs@[i as int]));
                    assert(parts.deep_view() =~= base + spec_commit_lines(now));
                }
                i += 1;
            }
            proof {
                assert(cs@.subrange(0, cs@.len() as int) =~= cs@);
            }
        },
        None => {},
    }
    match val.get_arr("files") {
        Some(fs) => {
            let mut head = String::from_str("\n**Changed files:** ");
            let num = u64_to_string(fs.len() as u64);
            head.append(num.as_str());
            push_part(&mut parts, head);
            let ghost base = parts.deep_view();
            let n = fs.len();
            let shown: usize = if n <= 50 {
                n
            } else {
                50
            };
            let ghost shown_seq = if fs@.len() <= 50 {
                fs@
            } else {
                fs@.subrange(0, 50)
            };
            let mut i: usize = 0;
            while i < shown
                invariant
                    0 <= i <= shown,
                    shown <= n,
                    n == fs@.len(),
                    shown_seq == (if fs@.len() <= 50 {
                        fs@
                    } else {
                        fs@.subrange(0, 50)
                    }),
                    shown as int == shown_seq.len(),
                    forall|k: int| 0 <= k < shown ==> shown_seq[k] == fs@[k],
                    parts.deep_view() == base + spec_compare_file_lines(
                        shown_seq.subrange(0, i as int),
                    ),
                decreases shown - i,
            {
                let j = &fs[i];
                let mut line = String::from_str("- ");
                match j.get_str("filename") {
                    Some(s) => line.append(s.as_str()),
                    None => line.append("unknown"),
                }
                line.append(" (");
                match j.get_str("status") {
                    Some(s) => line.append(s.as_str()),
                    None => line.append("modified"),
                }
                line.append(")");
                push_part(&mut parts, line);
                proof {
                    let now = shown_seq.subrange(0, i + 1);
                    assert(now.subrange(0, now.len() - 1) =~= shown_seq.subrange(0, i as int));
                    assert(now[now.len() - 1] == shown_seq[i as int]);
                    assert(line@ == spec_compare_file_line(shown_seq[i as int]));
                    assert(parts.deep_view() =~= base + spec_compare_file_lines(now));
                }
                i += 1;
            }
            proof {
                assert(shown_seq.subrange(0, shown_seq.len() as int) =~= shown_seq);
            }
        },
        None => {},
    }
    proof {
        assert(parts.deep_view() =~= spec_compare_parts(*val));
    }
    if parts.len() == 0 {
        proof {
            assert(parts.deep_view().len() == 0);
        }
        String::from_str("No differences found.")
    } else {
        proof {
            assert(parts.deep_view().len() > 0);
        }
        join(&parts, "\n")
    }
}

} // verus!
