use vstd::prelude::*;
use vstd::string::StringExecFns;

use crate::json::{spec_get_bool, spec_get_i64, spec_get_str, Json};
use crate::request::{
    body_jv, jv, jv_obj_entries, obj_body, push_field, push_query, repo_idx_path, repo_path,
    JsonV, Method, RequestPlan,
};
use crate::response::spec_or;
use crate::strutil::{i64_to_string, join, push_part, spec_i64_string, spec_join};
use crate::types::common::{limit_value, page_value, spec_limit_value, spec_page_value};

verus! {

pub struct ReleaseListParams {
    /// Repository owner. Optional if `directory` is provided.
    pub owner: Option<String>,
    /// Repository name. Optional if `directory` is provided.
    pub repo: Option<String>,
    /// Local directory to auto-detect owner/repo from.
    pub directory: Option<String>,
    /// Page number (1-based). Defaults to 1.
    pub page: Option<i64>,
    /// Items per page (max 50). Defaults to 20.
    pub limit: Option<i64>,
}

pub struct ReleaseGetParams {
    /// Repository owner. Optional if `directory` is provided.
    pub owner: Option<String>,
    /// Repository name. Optional if `directory` is provided.
    pub repo: Option<String>,
    /// Local directory to auto-detect owner/repo from.
    pub directory: Option<String>,
    /// Release ID.
    pub id: i64,
}

pub struct ReleaseCreateParams {
    /// Repository owner. Optional if `directory` is provided.
    pub owner: Option<String>,
    /// Repository name. Optional if `directory` is provided.
    pub repo: Option<String>,
    /// Local directory to auto-detect owner/repo from.
    pub directory: Option<String>,
    /// Tag name for the release.
    pub tag_name: String,
    /// Release title.
    pub name: Option<String>,
    /// Release notes body.
    pub body: Option<String>,
    /// Whether this is a draft release.
    pub draft: Option<bool>,
    /// Whether this is a prerelease.
    pub prerelease: Option<bool>,
    /// Branch or commit hash to tag (if the tag does not exist yet).
    pub target_commitish: Option<String>,
}

/// Plan the release listing call.
pub fn release_list_plan(owner: &str, repo: &str, p: &ReleaseListParams) -> (plan: RequestPlan)
    ensures
        plan.method == Method::Get,
        plan.path@ == "/repos/"@ + owner@ + "/"@ + repo@ + "/releases"@,
        plan.query.deep_view() == seq![
            ("page"@, spec_i64_string(spec_page_value(p.page))),
            ("limit"@, spec_i64_string(spec_limit_value(p.limit))),
        ],
        plan.body is None,
{
    let mut q: Vec<(String, String)> = Vec::new();
    push_query(&mut q, "page", i64_to_string(page_value(&p.page)));
    push_query(&mut q, "limit", i64_to_string(limit_value(&p.limit)));
    proof {
        assert(q.deep_view() =~= seq![
            ("page"@, spec_i64_string(spec_page_value(p.page))),
            ("limit"@, spec_i64_string(spec_limit_value(p.limit))),
        ]);
    }
    RequestPlan {
        method: Method::Get,
        path: repo_path(owner, repo, "/releases"),
        query: q,
        body: None,
    }
}

/// One line of a release listing: name (falling back to the tag), tag,
/// ID, and any draft/prerelease flags.
pub open spec fn spec_release_line(j: Json) -> Seq<char> {
    let tag = spec_or(spec_get_str(j, "tag_name"@), "?"@);
    let name = spec_or(spec_get_str(j, "name"@), tag);
    let id: int = match spec_get_i64(j, "id"@) {
        Some(n) => n as int,
        None => 0,
    };
    let draft = spec_get_bool(j, "draft"@) == Some(true);
    let prerelease = spec_get_bool(j, "prerelease"@) == Some(true);
    let flags = if draft && prerelease {
        " [draft, prerelease]"@
    } else if draft {
        " [draft]"@
    } else if prerelease {
        " [prerelease]"@
    } else {
        Seq::<char>::empty()
    };
    "- "@ + name + " ("@ + tag + ") [id: "@ + spec_i64_string(id) + "]"@ + flags
}

/// The lines of a release listing.
pub open spec fn spec_release_lines(items: Seq<Json>) -> Seq<Seq<char>>
    decreases items.len(),
{
    if items.len() == 0 {
        Seq::empty()
    } else {
        spec_release_lines(items.subrange(0, items.len() - 1)).push(
            spec_release_line(items[items.len() - 1]),
        )
    }
}

/// What the release listing renders for a response value.
pub open spec fn spec_release_list_render(v: Json) -> Seq<char> {
    let items = match v {
        Json::Arr(i) => i@,
        _ => Seq::<Json>::empty(),
    };
    if items.len() == 0 {
        "No releases found."@
    } else {
        spec_join(spec_release_lines(items), "\n"@)
    }
}

/// Render the release listing response.
pub fn release_list_render(val: &Json) -> (r: String)
    ensures
        r@ == spec_release_list_render(*val),
{
    let items: &Vec<Json> = match val {
        Json::Arr(items) => items,
        _ => {
            return String::from_str("No releases found.");
        },
    };
    if items.len() == 0 {
        return String::from_str("No releases found.");
    }
    let mut lines: Vec<String> = Vec::new();
    let n = items.len();
    let mut i: usize = 0;
    while i < n
        invariant
            0 <= i <= n,
            n == items@.len(),
            lines.deep_view() == spec_release_lines(items@.subrange(0, i as int)),
        decreases n - i,
    {
        let j = &items[i];
        let tag: &str = match j.get_str("tag_name") {
            Some(s) => s.as_str(),
            None => "?",
        };
        let name: &str = match j.get_str("name") {
            Some(s) => s.as_str(),
            None => tag,
        };
        let mut line = String::from_str("- ");
        line.append(name);
        line.append(" (");
        line.append(tag);
        line.append(") [id: ");
        let id = match j.get_i64("id") {
            Some(x) => x,
            None => 0,
        };
        let num = i64_to_string(id);
        line.append(num.as_str());
        line.append("]");
        let draft = match j.get_bool("draft") {
            Some(b) => b,
            None => false,
        };
        let prerelease = match j.get_bool("prerelease") {
            Some(b) => b,
            None => false,
        };
        if draft && prerelease {
            line.append(" [draft, prerelease]");
        } else if draft {
            line.append(" [draft]");
        } else if prerelease {
            line.append(" [prerelease]");
        }
        push_part(&mut lines, line);
        proof {
            let now = items@.subrange(0, i + 1);
            assert(now.subrange(0, now.len() - 1) =~= items@.subrange(0, i as int));
            assert(now[now.len() - 1] == items@[i as int]);
            assert(lines.deep_view() =~= spec_release_lines(now));
        }
        i += 1;
    }
    proof {
        assert(items@.subrange(0, items@.len() as int) =~= items@);
    }
    join(&lines, "\n")
}

/// Plan the single release fetch; its renderer is the general value
/// normalizer.
pub fn release_get_plan(owner: &str, repo: &str, p: &ReleaseGetParams) -> (plan: RequestPlan)
    ensures
        plan.method == Method::Get,
        plan.path@ == "/repos/"@ + owner@ + "/"@ + repo@ + "/releases/"@ + spec_i64_string(
            p.id as int,
        ),
        plan.query.deep_view() == Seq::<(Seq<char>, Seq<char>)>::empty(),
        plan.body is None,
{
    RequestPlan {
        method: Method::Get,
        path: repo_idx_path(owner, repo, "/releases/", p.id),
        query: Vec::new(),
        body: None,
    }
}

/// The body a release creation sends.
pub open spec fn spec_release_create_body(p: ReleaseCreateParams) -> JsonV {
    JsonV::Obj(
        seq![("tag_name"@, JsonV::Str(p.tag_name@))] + (match p.name {
            Some(n) => seq![("name"@, JsonV::Str(n@))],
            None => Seq::<(Seq<char>, JsonV)>::empty(),
        }) + (match p.body {
            Some(b) => seq![("body"@, JsonV::Str(b@))],
            None => Seq::<(Seq<char>, JsonV)>::empty(),
        }) + (match p.draft {
            Some(d) => seq![("draft"@, JsonV::Bool(d))],
            None => Seq::<(Seq<char>, JsonV)>::empty(),
        }) + (match p.prerelease {
            Some(d) => seq![("prerelease"@, JsonV::Bool(d))],
            None => Seq::<(Seq<char>, JsonV)>::empty(),
        }) + (match p.target_commitish {
            Some(t) => seq![("target_commitish"@, JsonV::Str(t@))],
            None => Seq::<(Seq<char>, JsonV)>::empty(),
        }),
    )
}

/// Plan the release creation call.
pub fn release_create_plan(owner: &str, repo: &str, p: &ReleaseCreateParams) -> (plan: RequestPlan)
    ensures
        plan.method == Method::Post,
        plan.path@ == "/repos/"@ + owner@ + "/"@ + repo@ + "/releases"@,
        plan.query.deep_view() == Seq::<(Seq<char>, Seq<char>)>::empty(),
        body_jv(plan) == Some(spec_release_create_body(*p)),
{
    let mut fields: Vec<(String, Json)> = Vec::new();
    push_field(&mut fields, "tag_name", Json::Str(p.tag_name.clone()));
    if let Some(n) = &p.name {
        push_field(&mut fields, "name", Json::Str(n.clone()));
    }
    if let Some(b) = &p.body {
        push_field(&mut fields, "body", Json::Str(b.clone()));
    }
    if let Some(d) = &p.draft {
        push_field(&mut fields, "draft", Json::Bool(*d));
    }
    if let Some(d) = &p.prerelease {
        push_field(&mut fields, "prerelease", Json::Bool(*d));
    }
    if let Some(t) = &p.target_commitish {
        push_field(&mut fields, "target_commitish", Json::Str(t.clone()));
    }
    let body = obj_body(fields);
    proof {
        assert(jv_obj_entries(jv(body)) =~~= jv_obj_entries(spec_release_create_body(*p)));
        assert(jv(body) == spec_release_create_body(*p));
    }
    RequestPlan {
        method: Method::Post,
        path: repo_path(owner, repo, "/releases"),
        query: Vec::new(),
        body: Some(body),
    }
}

/// What the release creation reports.
pub open spec fn spec_release_create_render(v: Json, p: ReleaseCreateParams) -> Seq<char> {
    "Release created: "@ + spec_or(spec_get_str(v, "tag_name"@), p.tag_name@)
}

/// Render the release creation confirmation.
pub fn release_create_render(val: &Json, p: &ReleaseCreateParams) -> (r: String)
    ensures
        r@ == spec_release_create_render(*val, *p),
{
    let mut s = String::from_str("Release created: ");
    match val.get_str("tag_name") {
        Some(t) => s.append(t.as_str()),
        None => s.append(p.tag_name.as_str()),
    }
    s
}

} // verus!
