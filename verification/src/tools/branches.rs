use vstd::prelude::*;
use vstd::string::StringExecFns;

use crate::json::{spec_get_bool, spec_get_str, Json};
use crate::platform::Platform;
use crate::request::{
    body_jv, jv, jv_obj_entries, obj_body, push_field, push_query, repo_path, repo_path_seg,
    JsonV, Method, RequestPlan,
};
use crate::response::{format_branch, spec_format_branch, spec_or};
use crate::strutil::{i64_to_string, join, push_part, spec_i64_string, spec_join};
use crate::types::common::{limit_value, page_value, spec_limit_value, spec_page_value};

verus! {

pub struct BranchListParams {
    /// Repository owner. Optional if `directory` is provided.
    pub owner: Option<String>,
    /// Repository name. Optional if `directory` is provided.
    pub repo: Option<String>,
    /// Local directory to auto-detect owner/repo from.
    pub directory: Option<String>,
    /// Page number (1-based). Defaults to 1.
    pub page: Option<i64>,
    /// Items per page (max 50). Defaults to 20.
    pub limit: Option<i64>,
}

pub struct BranchCreateParams {
    /// Repository owner. Optional if `directory` is provided.
    pub owner: Option<String>,
    /// Repository name. Optional if `directory` is provided.
    pub repo: Option<String>,
    /// Local directory to auto-detect owner/repo from.
    pub directory: Option<String>,
    /// Name for the new branch.
    pub new_branch_name: String,
    /// Source branch name or commit hash to create the new branch from.
    pub old_branch_name: Option<String>,
}

pub struct BranchDeleteParams {
    /// Repository owner. Optional if `directory` is provided.
    pub owner: Option<String>,
    /// Repository name. Optional if `directory` is provided.
    pub repo: Option<String>,
    /// Local directory to auto-detect owner/repo from.
    pub directory: Option<String>,
    /// Branch name to delete.
    pub branch: String,
}

pub struct BranchProtectionListParams {
    /// Repository owner. Optional if `directory` is provided.
    pub owner: Option<String>,
    /// Repository name. Optional if `directory` is provided.
    pub repo: Option<String>,
    /// Local directory to auto-detect owner/repo from.
    pub directory: Option<String>,
}

pub struct BranchProtectionCreateParams {
    /// Repository owner. Optional if `directory` is provided.
    pub owner: Option<String>,
    /// Repository name. Optional if `directory` is provided.
    pub repo: Option<String>,
    /// Local directory to auto-detect owner/repo from.
    pub directory: Option<String>,
    /// Branch name pattern to protect.
    pub branch_name: String,
    /// Allow direct pushes to this branch.
    pub enable_push: Option<bool>,
    /// Block merging when reviews have been rejected.
    pub block_on_rejected_reviews: Option<bool>,
}

/// Plan the branch listing call.
pub fn branch_list_plan(owner: &str, repo: &str, p: &BranchListParams) -> (plan: RequestPlan)
    ensures
        plan.method == Method::Get,
        plan.path@ == "/repos/"@ + owner@ + "/"@ + repo@ + "/branches"@,
        plan.query.deep_view() == seq![
            ("page"@, spec_i64_string(spec_page_value(p.page))),
            ("limit"@, spec_i64_string(spec_limit_value(p.limit))),
        ],
        plan.body is None,
{
    let mut q: Vec<(String, String)> = Vec::new();
    push_query(&mut q, "page", i64_to_string(page_value(&p.page)));
    push_query(&mut q, "limit", i64_to_string(limit_value(&p.limit)));
    proof {
        assert(q.deep_view() =~= seq![
            ("page"@, spec_i64_string(spec_page_value(p.page))),
            ("limit"@, spec_i64_string(spec_limit_value(p.limit))),
        ]);
    }
    RequestPlan {
        method: Method::Get,
        path: repo_path(owner, repo, "/branches"),
        query: q,
        body: None,
    }
}

/// The lines of a branch listing.
pub open spec fn spec_branch_lines(items: Seq<Json>) -> Seq<Seq<char>>
    decreases items.len(),
{
    if items.len() == 0 {
        Seq::empty()
    } else {
        spec_branch_lines(items.subrange(0, items.len() - 1)).push(
            spec_format_branch(items[items.len() - 1]),
        )
    }
}

/// What the branch listing renders for a response value.
pub open spec fn spec_branch_list_render(v: Json) -> Seq<char> {
    let items = match v {
        Json::Arr(i) => i@,
        _ => Seq::<Json>::empty(),
    };
    if items.len() == 0 {
        "No branches found."@
    } else {
        spec_join(spec_branch_lines(items), "\n"@)
    }
}

/// Render the branch listing response.
pub fn branch_list_render(val: &Json) -> (r: String)
    ensures
        r@ == spec_branch_list_render(*val),
{
    let items: &Vec<Json> = match val {
        Json::Arr(items) => items,
        _ => {
            return String::from_str("No branches found.");
        },
    };
    if items.len() == 0 {
        return String::from_str("No branches found.");
    }
    let mut lines: Vec<String> = Vec::new();
    let n = items.len();
    let mut i: usize = 0;
    while i < n
        invariant
            0 <= i <= n,
            n == items@.len(),
            lines.deep_view() == spec_branch_lines(items@.subrange(0, i as int)),
        decreases n - i,
    {
        push_part(&mut lines, format_branch(&items[i]));
        proof {
            let now = items@.subrange(0, i + 1);
            assert(now.subrange(0, now.len() - 1) =~= items@.subrange(0, i as int));
            assert(now[now.len() - 1] == items@[i as int]);
            assert(lines.deep_view() =~= spec_branch_lines(now));
        }
        i += 1;
    }
    proof {
        assert(items@.subrange(0, items@.len() as int) =~= items@);
    }
    join(&lines, "\n")
}

/// The body a branch creation sends.
pub open spec fn spec_branch_create_body(p: BranchCreateParams) -> JsonV {
    JsonV::Obj(
        seq![("new_branch_name"@, JsonV::Str(p.new_branch_name@))] + (match p.old_branch_name {
            Some(o) => seq![("old_branch_name"@, JsonV::Str(o@))],
            None => Seq::<(Seq<char>, JsonV)>::empty(),
        }),
    )
}

/// Plan the branch creation call.
pub fn branch_create_plan(owner: &str, repo: &str, p: &BranchCreateParams) -> (plan: RequestPlan)
    ensures
        plan.method == Method::Post,
        plan.path@ == "/repos/"@ + owner@ + "/"@ + repo@ + "/branches"@,
        plan.query.deep_view() == Seq::<(Seq<char>, Seq<char>)>::empty(),
        body_jv(plan) == Some(spec_branch_create_body(*p)),
{
    let mut fields: Vec<(String, Json)> = Vec::new();
    push_field(&mut fields, "new_branch_name", Json::Str(p.new_branch_name.clone()));
    if let Some(o) = &p.old_branch_name {
        push_field(&mut fields, "old_branch_name", Json::Str(o.clone()));
    }
    let body = obj_body(fields);
    proof {
        assert(jv_obj_entries(jv(body)) =~~= jv_obj_entries(spec_branch_create_body(*p)));
        assert(jv(body) == spec_branch_create_body(*p));
    }
    RequestPlan {
        method: Method::Post,
        path: repo_path(owner, repo, "/branches"),
        query: Vec::new(),
        body: Some(body),
    }
}

/// What the branch creation reports: the backend's branch name, with the
/// requested name as fallback.
pub open spec fn spec_branch_create_render(v: Json, p: BranchCreateParams) -> Seq<char> {
    "Branch created: "@ + spec_or(spec_get_str(v, "name"@), p.new_branch_name@)
}

/// Render the branch creation confirmation.
pub fn branch_create_render(val: &Json, p: &BranchCreateParams) -> (r: String)
    ensures
        r@ == spec_branch_create_render(*val, *p),
{
    let mut s = String::from_str("Branch created: ");
    match val.get_str("name") {
        Some(n) => s.append(n.as_str()),
        None => s.append(p.new_branch_name.as_str()),
    }
    s
}

/// Plan the branch deletion call.
pub fn branch_delete_plan(owner: &str, repo: &str, p: &BranchDeleteParams) -> (plan: RequestPlan)
    ensures
        plan.method == Method::Delete,
        plan.path@ == "/repos/"@ + owner@ + "/"@ + repo@ + "/branches/"@ + p.branch@,
        plan.query.deep_view() == Seq::<(Seq<char>, Seq<char>)>::empty(),
        plan.body is None,
{
    let path = repo_path_seg(owner, repo, "/branches/", p.branch.as_str(), "");
    proof {
        reveal_strlit("");
        assert(path@ =~= "/repos/"@ + owner@ + "/"@ + repo@ + "/branches/"@ + p.branch@);
    }
    RequestPlan { method: Method::Delete, path, query: Vec::new(), body: None }
}

/// Render the branch deletion confirmation.
pub fn branch_delete_render(p: &BranchDeleteParams) -> (r: String)
    ensures
        r@ == "Branch deleted: "@ + p.branch@,
{
    let mut s = String::from_str("Branch deleted: ");
    s.append(p.branch.as_str());
    s
}

/// Plan the protection rule listing: Gitea exposes rules directly, GitHub
/// is asked for protected branches instead.
pub fn branch_protection_list_plan(platform: Platform, owner: &str, repo: &str) -> (plan:
    RequestPlan)
    ensures
        plan.method == Method::Get,
        plan.body is None,
        match platform {
            Platform::Gitea => plan.path@ == "/repos/"@ + owner@ + "/"@ + repo@
                + "/branch_protections"@ && plan.query.deep_view() == Seq::<
                (Seq<char>, Seq<char>),
            >::empty(),
            Platform::GitHub => plan.path@ == "/repos/"@ + owner@ + "/"@ + repo@ + "/branches"@
                && plan.query.deep_view() == seq![
                ("per_page"@, "100"@),
                ("protected"@, "true"@),
            ],
        },
{
    match platform {
        Platform::Gitea => RequestPlan {
            method: Method::Get,
            path: repo_path(owner, repo, "/branch_protections"),
            query: Vec::new(),
            body: None,
        },
        Platform::GitHub => {
            let mut q: Vec<(String, String)> = Vec::new();
            push_query(&mut q, "per_page", String::from_str("100"));
            push_query(&mut q, "protected", String::from_str("true"));
            proof {
                assert(q.deep_view() =~= seq![("per_page"@, "100"@), ("protected"@, "true"@)]);
            }
            RequestPlan {
                method: Method::Get,
                path: repo_path(owner, repo, "/branches"),
                query: q,
                body: None,
            }
        },
    }
}

/// One line of a Gitea protection rule listing.
pub open spec fn spec_protection_rule_line(j: Json) -> Seq<char> {
    let name = spec_or(spec_get_str(j, "branch_name"@), "unknown"@);
    let push = match spec_get_bool(j, "enable_push"@) {
        Some(b) => b,
        None => false,
    };
    "- "@ + name + " (push: "@ + (if push {
        "true"@
    } else {
        "false"@
    }) + ")"@
}

/// The lines of a Gitea protection rule listing.
pub open spec fn spec_protection_rule_lines(items: Seq<Json>) -> Seq<Seq<char>>
    decreases items.len(),
{
    if items.len() == 0 {
        Seq::empty()
    } else {
        spec_protection_rule_lines(items.subrange(0, items.len() - 1)).push(
            spec_protection_rule_line(items[items.len() - 1]),
        )
    }
}

/// The lines of a GitHub protected-branch listing: branches whose
/// `protected` flag is set.
pub open spec fn spec_protected_branch_lines(items: Seq<Json>) -> Seq<Seq<char>>
    decreases items.len(),
{
    if items.len() == 0 {
        Seq::empty()
    } else {
        let init = spec_protected_branch_lines(items.subrange(0, items.len() - 1));
        let it = items[items.len() - 1];
        if spec_get_bool(it, "protected"@) == Some(true) {
            init.push("- "@ + spec_or(spec_get_str(it, "name"@), "unknown"@) + " [protected]"@)
        } else {
            init
        }
    }
}

/// What the protection rule listing renders for a response value.
pub open spec fn spec_protection_list_render(platform: Platform, v: Json) -> Seq<char> {
    let items = match v {
        Json::Arr(i) => i@,
        _ => Seq::<Json>::empty(),
    };
    let lines = match platform {
        Platform::Gitea => spec_protection_rule_lines(items),
        Platform::GitHub => spec_protected_branch_lines(items),
    };
    if lines.len() == 0 {
        "No branch protection rules found."@
    } else {
        spec_join(lines, "\n"@)
    }
}

/// Render the protection rule listing response.
pub fn branch_protection_list_render(platform: Platform, val: &Json) -> (r: String)
    ensures
        r@ == spec_protection_list_render(platform, *val),
{
    let mut lines: Vec<String> = Vec::new();
    match val {
        Json::Arr(items) => {
            let n = items.len();
            let mut i: usize = 0;
            while i < n
                invariant
                    0 <= i <= n,
                    n == items@.len(),
                    lines.deep_view() == (match platform {
                        Platform::Gitea => spec_protection_rule_lines(
                            items@.subrange(0, i as int),
                        ),
                        Platform::GitHub => spec_protected_branch_lines(
                            items@.subrange(0, i as int),
                        ),
                    }),
                decreases n - i,
            {
                let j = &items[i];
                match platform {
                    Platform::Gitea => {
                        let mut line = String::from_str("- ");
                        match j.get_str("branch_name") {
                            Some(s) => line.append(s.as_str()),
                            None => line.append("unknown"),
                        }
                        line.append(" (push: ");
                        let push = match j.get_bool("enable_push") {
                            Some(b) => b,
                            None => false,
                        };
                        if push {
                            line.append("true");
                        } else {
                            line.append("false");
                        }
                        line.append(")");
                        push_part(&mut lines, line);
                    },
                    Platform::GitHub => {
                        let protected = match j.get_bool("protected") {
                            Some(b) => b,
                            None => false,
                        };
                        if protected {
                            let mut line = String::from_str("- ");
                            match j.get_str("name") {
                                Some(s) => line.append(s.as_str()),
                                None => line.append("unknown"),
                            }
                            line.append(" [protected]");
                            push_part(&mut lines, line);
                        }
                    },
                }
                proof {
                    let now = items@.subrange(0, i + 1);
                    assert(now.subrange(0, now.len() - 1) =~= items@.subrange(0, i as int));
                    assert(now[now.len() - 1] == items@[i as int]);
                    match platform {
                        Platform::Gitea => {
                            assert(lines.deep_view() =~= spec_protection_rule_lines(now));
                        },
                        Platform::GitHub => {
                            assert(lines.deep_view() =~= spec_protected_branch_lines(now));
                        },
                    }
                }
                i += 1;
            }
            proof {
                assert(items@.subrange(0, items@.len() as int) =~= items@);
            }
        },
        _ => {},
    }
    if lines.len() == 0 {
        proof {
            assert(lines.deep_view().len() == 0);
        }
        String::from_str("No branch protection rules found.")
    } else {
        proof {
            assert(lines.deep_view().len() > 0);
        }
        join(&lines, "\n")
    }
}

/// The review-requirement object a GitHub protection rule carries:
/// blocking on rejected reviews also dismisses stale ones; restricting
/// pushes requires one approving review; otherwise no requirement.
pub open spec fn spec_github_reviews_value(p: BranchProtectionCreateParams) -> JsonV {
    if p.block_on_rejected_reviews == Some(true) {
        JsonV::Obj(
            seq![
                ("dismiss_stale_reviews"@, JsonV::Bool(true)),
                ("required_approving_review_count"@, JsonV::Int(1)),
            ],
        )
    } else if p.enable_push == Some(false) {
        JsonV::Obj(seq![("required_approving_review_count"@, JsonV::Int(1))])
    } else {
        JsonV::Null
    }
}

/// The body a protection rule creation sends, platform by platform.
pub open spec fn spec_protection_create_body(
    platform: Platform,
    p: BranchProtectionCreateParams,
) -> JsonV {
    match platform {
        Platform::Gitea => JsonV::Obj(
            seq![("branch_name"@, JsonV::Str(p.branch_name@))] + (match p.enable_push {
                Some(b) => seq![("enable_push"@, JsonV::Bool(b))],
                None => Seq::<(Seq<char>, JsonV)>::empty(),
            }) + (match p.block_on_rejected_reviews {
                Some(b) => seq![("block_on_rejected_reviews"@, JsonV::Bool(b))],
                None => Seq::<(Seq<char>, JsonV)>::empty(),
            }),
        ),
        Platform::GitHub => JsonV::Obj(
            seq![
                ("required_status_checks"@, JsonV::Null),
                ("enforce_admins"@, JsonV::Bool(true)),
                ("required_pull_request_reviews"@, spec_github_reviews_value(p)),
                ("restrictions"@, JsonV::Null),
            ],
        ),
    }
}

/// Plan the protection rule creation: Gitea posts a rule object, GitHub
/// puts a protection configuration on the branch.
pub fn branch_protection_create_plan(
    platform: Platform,
    owner: &str,
    repo: &str,
    p: &BranchProtectionCreateParams,
) -> (plan: RequestPlan)
    ensures
        plan.query.deep_view() == Seq::<(Seq<char>, Seq<char>)>::empty(),
        body_jv(plan) == Some(spec_protection_create_body(platform, *p)),
        match platform {
            Platform::Gitea => plan.method == Method::Post && plan.path@ == "/repos/"@ + owner@
                + "/"@ + repo@ + "/branch_protections"@,
            Platform::GitHub => plan.method == Method::Put && plan.path@ == "/repos/"@ + owner@
                + "/"@ + repo@ + "/branches/"@ + p.branch_name@ + "/protection"@,
        },
{
    match platform {
        Platform::Gitea => {
            let mut fields: Vec<(String, Json)> = Vec::new();
            push_field(&mut fields, "branch_name", Json::Str(p.branch_name.clone()));
            if let Some(b) = &p.enable_push {
                push_field(&mut fields, "enable_push", Json::Bool(*b));
            }
            if let Some(b) = &p.block_on_rejected_reviews {
                push_field(&mut fields, "block_on_rejected_reviews", Json::Bool(*b));
            }
            let body = obj_body(fields);
            proof {
                assert(jv_obj_entries(jv(body)) =~~= jv_obj_entries(
                    spec_protection_create_body(platform, *p),
                ));
                assert(jv(body) == spec_protection_create_body(platform, *p));
            }
            RequestPlan {
                method: Method::Post,
                path: repo_path(owner, repo, "/branch_protections"),
                query: Vec::new(),
                body: Some(body),
            }
        },
        Platform::GitHub => {
            let block = match &p.block_on_rejected_reviews {
                Some(b) => *b == true,
                None => false,
            };
            let restrict = match &p.enable_push {
                Some(b) => *b == false,
                None => false,
            };
            let reviews: Json = if block {
                let mut inner: Vec<(String, Json)> = Vec::new();
                push_field(&mut inner, "dismiss_stale_reviews", Json::Bool(true));
                push_field(&mut inner, "required_approving_review_count", Json::Int(1));
                let v = obj_body(inner);
                proof {
                    assert(jv_obj_entries(jv(v)) =~~= jv_obj_entries(
                        spec_github_reviews_value(*p),
                    ));
                    assert(jv(v) == spec_github_reviews_value(*p));
                }
                v
            } else if restrict {
                let mut inner: Vec<(String, Json)> = Vec::new();
                push_field(&mut inner, "required_approving_review_count", Json::Int(1));
                let v = obj_body(inner);
                proof {
                    assert(jv_obj_entries(jv(v)) =~~= jv_obj_entries(
                        spec_github_reviews_value(*p),
                    ));
                    assert(jv(v) == spec_github_reviews_value(*p));
                }
                v
            } else {
                Json::Null
            };
            let mut fields: Vec<(String, Json)> = Vec::new();
            push_field(&mut fields, "required_status_checks", Json::Null);
            push_field(&mut fields, "enforce_admins", Json::Bool(true));
            push_field(&mut fields, "required_pull_request_reviews", reviews);
            push_field(&mut fields, "restrictions", Json::Null);
            let body = obj_body(fields);
            proof {
                assert(jv_obj_entries(jv(body)) =~~= jv_obj_entries(
                    spec_protection_create_body(platform, *p),
                ));
                assert(jv(body) == spec_protection_create_body(platform, *p));
            }
            RequestPlan {
                method: Method::Put,
                path: repo_path_seg(owner, repo, "/branches/", p.branch_name.as_str(), "/protection"),
                query: Vec::new(),
                body: Some(body),
            }
        },
    }
}

/// Render the protection rule creation confirmation.
pub fn branch_protection_create_render(p: &BranchProtectionCreateParams) -> (r: String)
    ensures
        r@ == "Branch protection created for: "@ + p.branch_name@,
{
    let mut s = String::from_str("Branch protection created for: ");
    s.append(p.branch_name.as_str());
    s
}

} // verus!
