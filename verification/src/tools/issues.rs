use vstd::prelude::*;
use vstd::string::StringExecFns;

use crate::json::{spec_get, Json};
use crate::platform::Platform;
use crate::request::{
    json_ints, json_strs, jv_obj_entries, obj_body, push_field, push_query, repo_path,
    repo_path_idx, JsonV, Method, RequestPlan, body_jv,
};
use crate::response::spec_issue_line;
use crate::strutil::{i64_to_string, join, push_part, spec_i64_string, spec_join};
use crate::types::common::{limit_value, page_value, spec_limit_value, spec_page_value};

verus! {

pub struct IssueListParams {
    /// Repository owner. Optional if `directory` is provided.
    pub owner: Option<String>,
    /// Repository name. Optional if `directory` is provided.
    pub repo: Option<String>,
    /// Local directory to auto-detect owner/repo from.
    pub directory: Option<String>,
    /// Filter by state: open, closed, or all. Defaults to open.
    pub state: Option<String>,
    /// Filter by comma-separated label names.
    pub labels: Option<String>,
    /// Filter by milestone name.
    pub milestone: Option<String>,
    /// Page number (1-based). Defaults to 1.
    pub page: Option<i64>,
    /// Items per page (max 50). Defaults to 20.
    pub limit: Option<i64>,
}

pub struct IssueGetParams {
    /// Repository owner. Optional if `directory` is provided.
    pub owner: Option<String>,
    /// Repository name. Optional if `directory` is provided.
    pub repo: Option<String>,
    /// Local directory to auto-detect owner/repo from.
    pub directory: Option<String>,
    /// Issue number.
    pub index: i64,
}

pub struct IssueCreateParams {
    /// Repository owner. Optional if `directory` is provided.
    pub owner: Option<String>,
    /// Repository name. Optional if `directory` is provided.
    pub repo: Option<String>,
    /// Local directory to auto-detect owner/repo from.
    pub directory: Option<String>,
    /// Issue title.
    pub title: String,
    /// Issue body/description in markdown.
    pub body: Option<String>,
    /// Label IDs to assign.
    pub labels: Option<Vec<i64>>,
    /// Milestone ID.
    pub milestone: Option<i64>,
    /// Usernames to assign.
    pub assignees: Option<Vec<String>>,
}

pub struct IssueEditParams {
    /// Repository owner. Optional if `directory` is provided.
    pub owner: Option<String>,
    /// Repository name. Optional if `directory` is provided.
    pub repo: Option<String>,
    /// Local directory to auto-detect owner/repo from.
    pub directory: Option<String>,
    /// Issue number.
    pub index: i64,
    /// New title.
    pub title: Option<String>,
    /// New body.
    pub body: Option<String>,
    /// New state: open or closed.
    pub state: Option<String>,
    /// Label IDs to set, replaces existing.
    pub labels: Option<Vec<i64>>,
    /// Milestone ID.
    pub milestone: Option<i64>,
    /// Usernames to assign (replaces existing).
    pub assignees: Option<Vec<String>>,
}

/// The query an issue listing sends: the state filter (defaulting to
/// open), a Gitea-only type filter that excludes pull requests, the
/// optional label and milestone filters, and pagination.
pub open spec fn spec_issue_list_query(platform: Platform, p: IssueListParams) -> Seq<
    (Seq<char>, Seq<char>),
> {
    seq![
        (
            "state"@,
            match p.state {
                Some(s) => s@,
                None => "open"@,
            },
        ),
    ] + (if platform is Gitea {
        seq![("type"@, "issues"@)]
    } else {
        Seq::<(Seq<char>, Seq<char>)>::empty()
    }) + (match p.labels {
        Some(l) => seq![("labels"@, l@)],
        None => Seq::<(Seq<char>, Seq<char>)>::empty(),
    }) + (match p.milestone {
        Some(m) => seq![("milestones"@, m@)],
        None => Seq::<(Seq<char>, Seq<char>)>::empty(),
    }) + seq![
        ("page"@, spec_i64_string(spec_page_value(p.page))),
        ("limit"@, spec_i64_string(spec_limit_value(p.limit))),
    ]
}

/// Plan the issue listing call.
pub fn issue_list_plan(platform: Platform, owner: &str, repo: &str, p: &IssueListParams) -> (plan:
    RequestPlan)
    ensures
        plan.method == Method::Get,
        plan.path@ == "/repos/"@ + owner@ + "/"@ + repo@ + "/issues"@,
        plan.query.deep_view() == spec_issue_list_query(platform, *p),
        plan.body is None,
{
    let mut q: Vec<(String, String)> = Vec::new();
    match &p.state {
        Some(s) => push_query(&mut q, "state", s.clone()),
        None => push_query(&mut q, "state", String::from_str("open")),
    }
    if platform == Platform::Gitea {
        push_query(&mut q, "type", String::from_str("issues"));
    }
    if let Some(l) = &p.labels {
        push_query(&mut q, "labels", l.clone());
    }
    if let Some(m) = &p.milestone {
        push_query(&mut q, "milestones", m.clone());
    }
    push_query(&mut q, "page", i64_to_string(page_value(&p.page)));
    push_query(&mut q, "limit", i64_to_string(limit_value(&p.limit)));
    proof {
        assert(q.deep_view() =~= spec_issue_list_query(platform, *p));
    }
    RequestPlan { method: Method::Get, path: repo_path(owner, repo, "/issues"), query: q, body: None }
}

/// The listing lines after platform filtering: on GitHub, items carrying a
/// `pull_request` key are pull requests and are dropped; Gitea filtered
/// server-side.
pub open spec fn spec_issue_filtered_lines(items: Seq<Json>, github: bool) -> Seq<Seq<char>>
    decreases items.len(),
{
    if items.len() == 0 {
        Seq::empty()
    } else {
        let init = spec_issue_filtered_lines(items.subrange(0, items.len() - 1), github);
        let it = items[items.len() - 1];
        if github && spec_get(it, "pull_request"@) is Some {
            init
        } else {
            init.push(spec_issue_line(it))
        }
    }
}

/// What the issue listing renders for a response value.
pub open spec fn spec_issue_list_render(platform: Platform, v: Json) -> Seq<char> {
    let items = match v {
        Json::Arr(i) => i@,
        _ => Seq::<Json>::empty(),
    };
    let lines = spec_issue_filtered_lines(items, platform is GitHub);
    if lines.len() == 0 {
        "No issues found."@
    } else {
        spec_join(lines, "\n"@)
    }
}

/// Render the issue listing response.
pub fn issue_list_render(platform: Platform, val: &Json) -> (r: String)
    ensures
        r@ == spec_issue_list_render(platform, *val),
{
    let github = platform == Platform::GitHub;
    let mut lines: Vec<String> = Vec::new();
    match val {
        Json::Arr(items) => {
            let n = items.len();
            let mut i: usize = 0;
            while i < n
                invariant
                    0 <= i <= n,
                    n == items@.len(),
                    github == (platform is GitHub),
                    lines.deep_view() == spec_issue_filtered_lines(
                        items@.subrange(0, i as int),
                        github,
                    ),
                decreases n - i,
            {
                let it = &items[i];
                let skip = github && it.get("pull_request").is_some();
                if !skip {
                    push_part(&mut lines, crate::response::issue_line_text(it));
                }
                proof {
                    let now = items@.subrange(0, i + 1);
                    assert(now.subrange(0, now.len() - 1) =~= items@.subrange(0, i as int));
                    assert(now[now.len() - 1] == items@[i as int]);
                    assert(lines.deep_view() =~= spec_issue_filtered_lines(now, github));
                }
                i += 1;
            }
            proof {
                assert(items@.subrange(0, items@.len() as int) =~= items@);
            }
        },
        _ => {},
    }
    if lines.len() == 0 {
        proof {
            assert(lines.deep_view().len() == 0);
        }
        String::from_str("No issues found.")
    } else {
        proof {
            assert(lines.deep_view().len() > 0);
        }
        join(&lines, "\n")
    }
}

/// Plan the single-issue fetch.
pub fn issue_get_plan(owner: &str, repo: &str, p: &IssueGetParams) -> (plan: RequestPlan)
    ensures
        plan.method == Method::Get,
        plan.path@ == "/repos/"@ + owner@ + "/"@ + repo@ + "/issues/"@ + spec_i64_string(
            p.index as int,
        ),
        plan.query.deep_view() == Seq::<(Seq<char>, Seq<char>)>::empty(),
        plan.body is None,
{
    let path = repo_path_idx(owner, repo, "/issues/", p.index, "");
    proof {
        reveal_strlit("");
        assert(path@ =~= "/repos/"@ + owner@ + "/"@ + repo@ + "/issues/"@ + spec_i64_string(
            p.index as int,
        ));
    }
    RequestPlan { method: Method::Get, path, query: Vec::new(), body: None }
}

/// The body an issue creation sends: the title, and each optional field
/// exactly when given.
pub open spec fn spec_issue_create_body(p: IssueCreateParams) -> JsonV {
    JsonV::Obj(
        seq![("title"@, JsonV::Str(p.title@))] + (match p.body {
            Some(b) => seq![("body"@, JsonV::Str(b@))],
            None => Seq::<(Seq<char>, JsonV)>::empty(),
        }) + (match p.labels {
            Some(ls) => seq![
                ("labels"@, JsonV::Arr(ls@.map_values(|x: i64| JsonV::Int(x as int)))),
            ],
            None => Seq::<(Seq<char>, JsonV)>::empty(),
        }) + (match p.milestone {
            Some(m) => seq![("milestone"@, JsonV::Int(m as int))],
            None => Seq::<(Seq<char>, JsonV)>::empty(),
        }) + (match p.assignees {
            Some(a) => seq![("assignees"@, JsonV::Arr(a@.map_values(|x: String| JsonV::Str(x@))))],
            None => Seq::<(Seq<char>, JsonV)>::empty(),
        }),
    )
}

/// Plan the issue creation call.
pub fn issue_create_plan(owner: &str, repo: &str, p: &IssueCreateParams) -> (plan: RequestPlan)
    ensures
        plan.method == Method::Post,
        plan.path@ == "/repos/"@ + owner@ + "/"@ + repo@ + "/issues"@,
        plan.query.deep_view() == Seq::<(Seq<char>, Seq<char>)>::empty(),
        body_jv(plan) == Some(spec_issue_create_body(*p)),
{
    let mut fields: Vec<(String, Json)> = Vec::new();
    push_field(&mut fields, "title", Json::Str(p.title.clone()));
    if let Some(b) = &p.body {
        push_field(&mut fields, "body", Json::Str(b.clone()));
    }
    if let Some(ls) = &p.labels {
        push_field(&mut fields, "labels", json_ints(ls));
    }
    if let Some(m) = &p.milestone {
        push_field(&mut fields, "milestone", Json::Int(*m));
    }
    if let Some(a) = &p.assignees {
        push_field(&mut fields, "assignees", json_strs(a));
    }
    let body = obj_body(fields);
    proof {
        assert(jv_obj_entries(spec_issue_create_body(*p)) =~~= jv_obj_entries(crate::request::jv(body)));
        assert(spec_issue_create_body(*p) == crate::request::jv(body));
    }
    RequestPlan {
        method: Method::Post,
        path: repo_path(owner, repo, "/issues"),
        query: Vec::new(),
        body: Some(body),
    }
}

/// The body an issue edit sends: each field exactly when given.
pub open spec fn spec_issue_edit_body(p: IssueEditParams) -> JsonV {
    JsonV::Obj(
        (match p.title {
            Some(t) => seq![("title"@, JsonV::Str(t@))],
            None => Seq::<(Seq<char>, JsonV)>::empty(),
        }) + (match p.body {
            Some(b) => seq![("body"@, JsonV::Str(b@))],
            None => Seq::<(Seq<char>, JsonV)>::empty(),
        }) + (match p.state {
            Some(s) => seq![("state"@, JsonV::Str(s@))],
            None => Seq::<(Seq<char>, JsonV)>::empty(),
        }) + (match p.labels {
            Some(ls) => seq![
                ("labels"@, JsonV::Arr(ls@.map_values(|x: i64| JsonV::Int(x as int)))),
            ],
            None => Seq::<(Seq<char>, JsonV)>::empty(),
        }) + (match p.milestone {
            Some(m) => seq![("milestone"@, JsonV::Int(m as int))],
            None => Seq::<(Seq<char>, JsonV)>::empty(),
        }) + (match p.assignees {
            Some(a) => seq![("assignees"@, JsonV::Arr(a@.map_values(|x: String| JsonV::Str(x@))))],
            None => Seq::<(Seq<char>, JsonV)>::empty(),
        }),
    )
}

/// Plan the issue edit call.
pub fn issue_edit_plan(owner: &str, repo: &str, p: &IssueEditParams) -> (plan: RequestPlan)
    ensures
        plan.method == Method::Patch,
        plan.path@ == "/repos/"@ + owner@ + "/"@ + repo@ + "/issues/"@ + spec_i64_string(
            p.index as int,
        ),
        plan.query.deep_view() == Seq::<(Seq<char>, Seq<char>)>::empty(),
        body_jv(plan) == Some(spec_issue_edit_body(*p)),
{
    let mut fields: Vec<(String, Json)> = Vec::new();
    if let Some(t) = &p.title {
        push_field(&mut fields, "title", Json::Str(t.clone()));
    }
    if let Some(b) = &p.body {
        push_field(&mut fields, "body", Json::Str(b.clone()));
    }
    if let Some(s) = &p.state {
        push_field(&mut fields, "state", Json::Str(s.clone()));
    }
    if let Some(ls) = &p.labels {
        push_field(&mut fields, "labels", json_ints(ls));
    }
    if let Some(m) = &p.milestone {
        push_field(&mut fields, "milestone", Json::Int(*m));
    }
    if let Some(a) = &p.assignees {
        push_field(&mut fields, "assignees", json_strs(a));
    }
    let body = obj_body(fields);
    proof {
        assert(jv_obj_entries(spec_issue_edit_body(*p)) =~~= jv_obj_entries(crate::request::jv(body)));
        assert(spec_issue_edit_body(*p) == crate::request::jv(body));
    }
    let path = repo_path_idx(owner, repo, "/issues/", p.index, "");
    proof {
        reveal_strlit("");
        assert(path@ =~= "/repos/"@ + owner@ + "/"@ + repo@ + "/issues/"@ + spec_i64_string(
            p.index as int,
        ));
    }
    RequestPlan { method: Method::Patch, path, query: Vec::new(), body: Some(body) }
}

} // verus!
