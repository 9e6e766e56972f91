use vstd::prelude::*;
use vstd::string::StringExecFns;

use crate::json::Json;
use crate::platform::Platform;
use crate::request::{
    body_jv, json_ints, json_strs, jv, jv_obj_entries, obj_body, push_field, push_query,
    repo_idx_path, repo_path, repo_path_idx, JsonV, Method, RequestPlan,
};
use crate::response::{format_pr_list, spec_format_pr_list};
use crate::strutil::{i64_to_string, spec_i64_string};
use crate::types::common::{limit_value, page_value, spec_limit_value, spec_page_value};

verus! {

pub struct PrListParams {
    /// Repository owner. Optional if `directory` is provided.
    pub owner: Option<String>,
    /// Repository name. Optional if `directory` is provided.
    pub repo: Option<String>,
    /// Local directory to auto-detect owner/repo from.
    pub directory: Option<String>,
    /// Filter by state: open, closed, or all. Defaults to open.
    pub state: Option<String>,
    /// Page number (1-based). Defaults to 1.
    pub page: Option<i64>,
    /// Items per page (max 50). Defaults to 20.
    pub limit: Option<i64>,
}

pub struct PrGetParams {
    /// Repository owner. Optional if `directory` is provided.
    pub owner: Option<String>,
    /// Repository name. Optional if `directory` is provided.
    pub repo: Option<String>,
    /// Local directory to auto-detect owner/repo from.
    pub directory: Option<String>,
    /// Pull request number.
    pub index: i64,
}

pub struct PrCreateParams {
    /// Repository owner. Optional if `directory` is provided.
    pub owner: Option<String>,
    /// Repository name. Optional if `directory` is provided.
    pub repo: Option<String>,
    /// Local directory to auto-detect owner/repo from.
    pub directory: Option<String>,
    /// PR title.
    pub title: String,
    /// Head branch (source).
    pub head: String,
    /// Base branch (target).
    pub base: String,
    /// PR body/description.
    pub body: Option<String>,
    /// Label IDs.
    pub labels: Option<Vec<i64>>,
    /// Milestone ID.
    pub milestone: Option<i64>,
    /// Assignee usernames.
    pub assignees: Option<Vec<String>>,
}

pub struct PrEditParams {
    /// Repository owner. Optional if `directory` is provided.
    pub owner: Option<String>,
    /// Repository name. Optional if `directory` is provided.
    pub repo: Option<String>,
    /// Local directory to auto-detect owner/repo from.
    pub directory: Option<String>,
    /// Pull request number.
    pub index: i64,
    /// New title.
    pub title: Option<String>,
    /// New body.
    pub body: Option<String>,
    /// New state: open or closed.
    pub state: Option<String>,
    /// Label IDs, replaces existing.
    pub labels: Option<Vec<i64>>,
    /// Assignee usernames, replaces existing.
    pub assignees: Option<Vec<String>>,
}

pub struct PrMergeParams {
    /// Repository owner. Optional if `directory` is provided.
    pub owner: Option<String>,
    /// Repository name. Optional if `directory` is provided.
    pub repo: Option<String>,
    /// Local directory to auto-detect owner/repo from.
    pub directory: Option<String>,
    /// Pull request number.
    pub index: i64,
    /// Merge strategy: merge, rebase, or squash. Defaults to merge.
    pub merge_style: Option<String>,
    /// Custom merge commit message.
    pub merge_message: Option<String>,
    /// Delete head branch after merge.
    pub delete_branch_after_merge: Option<bool>,
}

/// Plan the pull request listing call.
pub fn pr_list_plan(owner: &str, repo: &str, p: &PrListParams) -> (plan: RequestPlan)
    ensures
        plan.method == Method::Get,
        plan.path@ == "/repos/"@ + owner@ + "/"@ + repo@ + "/pulls"@,
        plan.query.deep_view() == seq![
            (
                "state"@,
                match p.state {
                    Some(s) => s@,
                    None => "open"@,
                },
            ),
            ("page"@, spec_i64_string(spec_page_value(p.page))),
            ("limit"@, spec_i64_string(spec_limit_value(p.limit))),
        ],
        plan.body is None,
{
    let mut q: Vec<(String, String)> = Vec::new();
    match &p.state {
        Some(s) => push_query(&mut q, "state", s.clone()),
        None => push_query(&mut q, "state", String::from_str("open")),
    }
    push_query(&mut q, "page", i64_to_string(page_value(&p.page)));
    push_query(&mut q, "limit", i64_to_string(limit_value(&p.limit)));
    proof {
        assert(q.deep_view() =~= seq![
            (
                "state"@,
                match p.state {
                    Some(s) => s@,
                    None => "open"@,
                },
            ),
            ("page"@, spec_i64_string(spec_page_value(p.page))),
            ("limit"@, spec_i64_string(spec_limit_value(p.limit))),
        ]);
    }
    RequestPlan { method: Method::Get, path: repo_path(owner, repo, "/pulls"), query: q, body: None }
}

/// What the pull request listing renders for a response value.
pub open spec fn spec_pr_list_render(v: Json) -> Seq<char> {
    match v {
        Json::Arr(items) => spec_format_pr_list(items@),
        _ => spec_format_pr_list(Seq::<Json>::empty()),
    }
}

/// Render the pull request listing response.
pub fn pr_list_render(val: &Json) -> (r: String)
    ensures
        r@ == spec_pr_list_render(*val),
{
    match val {
        Json::Arr(items) => format_pr_list(items),
        _ => {
            let empty: Vec<Json> = Vec::new();
            format_pr_list(&empty)
        },
    }
}

/// Plan the single pull request fetch.
pub fn pr_get_plan(owner: &str, repo: &str, p: &PrGetParams) -> (plan: RequestPlan)
    ensures
        plan.method == Method::Get,
        plan.path@ == "/repos/"@ + owner@ + "/"@ + repo@ + "/pulls/"@ + spec_i64_string(
            p.index as int,
        ),
        plan.query.deep_view() == Seq::<(Seq<char>, Seq<char>)>::empty(),
        plan.body is None,
{
    RequestPlan {
        method: Method::Get,
        path: repo_idx_path(owner, repo, "/pulls/", p.index),
        query: Vec::new(),
        body: None,
    }
}

/// The body a pull request creation sends.
pub open spec fn spec_pr_create_body(p: PrCreateParams) -> JsonV {
    JsonV::Obj(
        seq![
            ("title"@, JsonV::Str(p.title@)),
            ("head"@, JsonV::Str(p.head@)),
            ("base"@, JsonV::Str(p.base@)),
        ] + (match p.body {
            Some(b) => seq![("body"@, JsonV::Str(b@))],
            None => Seq::<(Seq<char>, JsonV)>::empty(),
        }) + (match p.labels {
            Some(ls) => seq![
                ("labels"@, JsonV::Arr(ls@.map_values(|x: i64| JsonV::Int(x as int)))),
            ],
            None => Seq::<(Seq<char>, JsonV)>::empty(),
        }) + (match p.milestone {
            Some(m) => seq![("milestone"@, JsonV::Int(m as int))],
            None => Seq::<(Seq<char>, JsonV)>::empty(),
        }) + (match p.assignees {
            Some(a) => seq![("assignees"@, JsonV::Arr(a@.map_values(|x: String| JsonV::Str(x@))))],
            None => Seq::<(Seq<char>, JsonV)>::empty(),
        }),
    )
}

/// Plan the pull request creation call.
pub fn pr_create_plan(owner: &str, repo: &str, p: &PrCreateParams) -> (plan: RequestPlan)
    ensures
        plan.method == Method::Post,
        plan.path@ == "/repos/"@ + owner@ + "/"@ + repo@ + "/pulls"@,
        plan.query.deep_view() == Seq::<(Seq<char>, Seq<char>)>::empty(),
        body_jv(plan) == Some(spec_pr_create_body(*p)),
{
    let mut fields: Vec<(String, Json)> = Vec::new();
    push_field(&mut fields, "title", Json::Str(p.title.clone()));
    push_field(&mut fields, "head", Json::Str(p.head.clone()));
    push_field(&mut fields, "base", Json::Str(p.base.clone()));
    if let Some(b) = &p.body {
        push_field(&mut fields, "body", Json::Str(b.clone()));
    }
    if let Some(ls) = &p.labels {
        push_field(&mut fields, "labels", json_ints(ls));
    }
    if let Some(m) = &p.milestone {
        push_field(&mut fields, "milestone", Json::Int(*m));
    }
    if let Some(a) = &p.assignees {
        push_field(&mut fields, "assignees", json_strs(a));
    }
    let body = obj_body(fields);
    proof {
        assert(jv_obj_entries(spec_pr_create_body(*p)) =~~= jv_obj_entries(jv(body)));
        assert(spec_pr_create_body(*p) == jv(body));
    }
    RequestPlan {
        method: Method::Post,
        path: repo_path(owner, repo, "/pulls"),
        query: Vec::new(),
        body: Some(body),
    }
}

/// The body a pull request edit sends.
pub open spec fn spec_pr_edit_body(p: PrEditParams) -> JsonV {
    JsonV::Obj(
        (match p.title {
            Some(t) => seq![("title"@, JsonV::Str(t@))],
            None => Seq::<(Seq<char>, JsonV)>::empty(),
        }) + (match p.body {
            Some(b) => seq![("body"@, JsonV::Str(b@))],
            None => Seq::<(Seq<char>, JsonV)>::empty(),
        }) + (match p.state {
            Some(s) => seq![("state"@, JsonV::Str(s@))],
            None => Seq::<(Seq<char>, JsonV)>::empty(),
        }) + (match p.labels {
            Some(ls) => seq![
                ("labels"@, JsonV::Arr(ls@.map_values(|x: i64| JsonV::Int(x as int)))),
            ],
            None => Seq::<(Seq<char>, JsonV)>::empty(),
        }) + (match p.assignees {
            Some(a) => seq![("assignees"@, JsonV::Arr(a@.map_values(|x: String| JsonV::Str(x@))))],
            None => Seq::<(Seq<char>, JsonV)>::empty(),
        }),
    )
}

/// Plan the pull request edit call.
pub fn pr_edit_plan(owner: &str, repo: &str, p: &PrEditParams) -> (plan: RequestPlan)
    ensures
        plan.method == Method::Patch,
        plan.path@ == "/repos/"@ + owner@ + "/"@ + repo@ + "/pulls/"@ + spec_i64_string(
            p.index as int,
        ),
        plan.query.deep_view() == Seq::<(Seq<char>, Seq<char>)>::empty(),
        body_jv(plan) == Some(spec_pr_edit_body(*p)),
{
    let mut fields: Vec<(String, Json)> = Vec::new();
    if let Some(t) = &p.title {
        push_field(&mut fields, "title", Json::Str(t.clone()));
    }
    if let Some(b) = &p.body {
        push_field(&mut fields, "body", Json::Str(b.clone()));
    }
    if let Some(s) = &p.state {
        push_field(&mut fields, "state", Json::Str(s.clone()));
    }
    if let Some(ls) = &p.labels {
        push_field(&mut fields, "labels", json_ints(ls));
    }
    if let Some(a) = &p.assignees {
        push_field(&mut fields, "assignees", json_strs(a));
    }
    let body = obj_body(fields);
    proof {
        assert(jv_obj_entries(spec_pr_edit_body(*p)) =~~= jv_obj_entries(jv(body)));
        assert(spec_pr_edit_body(*p) == jv(body));
    }
    RequestPlan {
        method: Method::Patch,
        path: repo_idx_path(owner, repo, "/pulls/", p.index),
        query: Vec::new(),
        body: Some(body),
    }
}

/// The merge strategy a merge call sends, defaulting to a plain merge.
pub open spec fn spec_merge_style(p: PrMergeParams) -> Seq<char> {
    match p.merge_style {
        Some(s) => s@,
        None => "merge"@,
    }
}

/// The body a merge call sends; the strategy key and message key differ by
/// platform, the branch-deletion flag does not.
pub open spec fn spec_pr_merge_body(platform: Platform, p: PrMergeParams) -> JsonV {
    JsonV::Obj(
        (match platform {
            Platform::Gitea => seq![("Do"@, JsonV::Str(spec_merge_style(p)))] + (match p
                .merge_message {
                Some(m) => seq![("merge_message_field"@, JsonV::Str(m@))],
                None => Seq::<(Seq<char>, JsonV)>::empty(),
            }),
            Platform::GitHub => seq![("merge_method"@, JsonV::Str(spec_merge_style(p)))] + (match p
                .merge_message {
                Some(m) => seq![("commit_message"@, JsonV::Str(m@))],
                None => Seq::<(Seq<char>, JsonV)>::empty(),
            }),
        }) + (match p.delete_branch_after_merge {
            Some(d) => seq![("delete_branch_after_merge"@, JsonV::Bool(d))],
            None => Seq::<(Seq<char>, JsonV)>::empty(),
        }),
    )
}

/// Plan the merge call: a write with no meaningful response body.
pub fn pr_merge_plan(platform: Platform, owner: &str, repo: &str, p: &PrMergeParams) -> (plan:
    RequestPlan)
    ensures
        plan.method == Method::PostNoContent,
        plan.path@ == "/repos/"@ + owner@ + "/"@ + repo@ + "/pulls/"@ + spec_i64_string(
            p.index as int,
        ) + "/merge"@,
        plan.query.deep_view() == Seq::<(Seq<char>, Seq<char>)>::empty(),
        body_jv(plan) == Some(spec_pr_merge_body(platform, *p)),
{
    let style = match &p.merge_style {
        Some(s) => s.clone(),
        None => String::from_str("merge"),
    };
    let mut fields: Vec<(String, Json)> = Vec::new();
    match platform {
        Platform::Gitea => {
            push_field(&mut fields, "Do", Json::Str(style));
            if let Some(m) = &p.merge_message {
                push_field(&mut fields, "merge_message_field", Json::Str(m.clone()));
            }
        },
        Platform::GitHub => {
            push_field(&mut fields, "merge_method", Json::Str(style));
            if let Some(m) = &p.merge_message {
                push_field(&mut fields, "commit_message", Json::Str(m.clone()));
            }
        },
    }
    if let Some(d) = &p.delete_branch_after_merge {
        push_field(&mut fields, "delete_branch_after_merge", Json::Bool(*d));
    }
    let body = obj_body(fields);
    proof {
        assert(jv_obj_entries(spec_pr_merge_body(platform, *p)) =~~= jv_obj_entries(jv(body)));
        assert(spec_pr_merge_body(platform, *p) == jv(body));
    }
    RequestPlan {
        method: Method::PostNoContent,
        path: repo_path_idx(owner, repo, "/pulls/", p.index, "/merge"),
        query: Vec::new(),
        body: Some(body),
    }
}

/// The success text a merge reports.
pub open spec fn spec_pr_merge_text(p: PrMergeParams) -> Seq<char> {
    "Pull request #"@ + spec_i64_string(p.index as int) + " merged successfully."@
}

/// Render the merge confirmation.
pub fn pr_merge_render(p: &PrMergeParams) -> (r: String)
    ensures
        r@ == spec_pr_merge_text(*p),
{
    let mut s = String::from_str("Pull request #");
    let num = i64_to_string(p.index);
    s.append(num.as_str());
    s.append(" merged successfully.");
    s
}

} // verus!
