use vstd::prelude::*;
use vstd::string::StringExecFns;

use crate::json::{spec_get2_str, spec_get_str, Json};
use crate::request::{
    body_jv, jv, jv_obj_entries, obj_body, push_field, push_query, repo_path, JsonV, Method,
    RequestPlan,
};
use crate::response::spec_or;
use crate::strutil::{
    i64_to_string, join, push_part, short7, spec_i64_string, spec_join, spec_short7,
};
use crate::types::common::{limit_value, page_value, spec_limit_value, spec_page_value};

verus! {

pub struct TagListParams {
    /// Repository owner. Optional if `directory` is provided.
    pub owner: Option<String>,
    /// Repository name. Optional if `directory` is provided.
    pub repo: Option<String>,
    /// Local directory to auto-detect owner/repo from.
    pub directory: Option<String>,
    /// Page number (1-based). Defaults to 1.
    pub page: Option<i64>,
    /// Items per page (max 50). Defaults to 20.
    pub limit: Option<i64>,
}

pub struct TagCreateParams {
    /// Repository owner. Optional if `directory` is provided.
    pub owner: Option<String>,
    /// Repository name. Optional if `directory` is provided.
    pub repo: Option<String>,
    /// Local directory to auto-detect owner/repo from.
    pub directory: Option<String>,
    /// Tag name.
    pub tag_name: String,
    /// Commit hash or branch to tag.
    pub target: Option<String>,
    /// Tag message (creates an annotated tag if provided).
    pub message: Option<String>,
}

/// Plan the tag listing call.
pub fn tag_list_plan(owner: &str, repo: &str, p: &TagListParams) -> (plan: RequestPlan)
    ensures
        plan.method == Method::Get,
        plan.path@ == "/repos/"@ + owner@ + "/"@ + repo@ + "/tags"@,
        plan.query.deep_view() == seq![
            ("page"@, spec_i64_string(spec_page_value(p.page))),
            ("limit"@, spec_i64_string(spec_limit_value(p.limit))),
        ],
        plan.body is None,
{
    let mut q: Vec<(String, String)> = Vec::new();
    push_query(&mut q, "page", i64_to_string(page_value(&p.page)));
    push_query(&mut q, "limit", i64_to_string(limit_value(&p.limit)));
    proof {
        assert(q.deep_view() =~= seq![
            ("page"@, spec_i64_string(spec_page_value(p.page))),
            ("limit"@, spec_i64_string(spec_limit_value(p.limit))),
        ]);
    }
    RequestPlan { method: Method::Get, path: repo_path(owner, repo, "/tags"), query: q, body: None }
}

/// One line of a tag listing: the tag and its abbreviated commit hash.
pub open spec fn spec_tag_line(j: Json) -> Seq<char> {
    let name = spec_or(spec_get_str(j, "name"@), "?"@);
    let sha = match spec_get2_str(j, "commit"@, "sha"@) {
        Some(s) => spec_short7(s),
        None => "???????"@,
    };
    "- "@ + name + " (`"@ + sha + "`)"@
}

/// The lines of a tag listing.
pub open spec fn spec_tag_lines(items: Seq<Json>) -> Seq<Seq<char>>
    decreases items.len(),
{
    if items.len() == 0 {
        Seq::empty()
    } else {
        spec_tag_lines(items.subrange(0, items.len() - 1)).push(
            spec_tag_line(items[items.len() - 1]),
        )
    }
}

/// What the tag listing renders for a response value.
pub open spec fn spec_tag_list_render(v: Json) -> Seq<char> {
    let items = match v {
        Json::Arr(i) => i@,
        _ => Seq::<Json>::empty(),
    };
    if items.len() == 0 {
        "No tags found."@
    } else {
        spec_join(spec_tag_lines(items), "\n"@)
    }
}

/// Render the tag listing response.
pub fn tag_list_render(val: &Json) -> (r: String)
    ensures
        r@ == spec_tag_list_render(*val),
{
    let items: &Vec<Json> = match val {
        Json::Arr(items) => items,
        _ => {
            return String::from_str("No tags found.");
        },
    };
    if items.len() == 0 {
        return String::from_str("No tags found.");
    }
    let mut lines: Vec<String> = Vec::new();
    let n = items.len();
    let mut i: usize = 0;
    while i < n
        invariant
            0 <= i <= n,
            n == items@.len(),
            lines.deep_view() == spec_tag_lines(items@.subrange(0, i as int)),
        decreases n - i,
    {
        let j = &items[i];
        let mut line = String::from_str("- ");
        match j.get_str("name") {
            Some(s) => line.append(s.as_str()),
            None => line.append("?"),
        }
        line.append(" (`");
        match j.get2_str("commit", "sha") {
            Some(s) => line.append(short7(s.as_str())),
            None => line.append("???????"),
        }
        line.append("`)");
        push_part(&mut lines, line);
        proof {
            let now = items@.subrange(0, i + 1);
            assert(now.subrange(0, now.len() - 1) =~= items@.subrange(0, i as int));
            assert(now[now.len() - 1] == items@[i as int]);
            assert(lines.deep_view() =~= spec_tag_lines(now));
        }
        i += 1;
    }
    proof {
        assert(items@.subrange(0, items@.len() as int) =~= items@);
    }
    join(&lines, "\n")
}

/// The body a tag creation sends.
pub open spec fn spec_tag_create_body(p: TagCreateParams) -> JsonV {
    JsonV::Obj(
        seq![("tag_name"@, JsonV::Str(p.tag_name@))] + (match p.target {
            Some(t) => seq![("target"@, JsonV::Str(t@))],
            None => Seq::<(Seq<char>, JsonV)>::empty(),
        }) + (match p.message {
            Some(m) => seq![("message"@, JsonV::Str(m@))],
            None => Seq::<(Seq<char>, JsonV)>::empty(),
        }),
    )
}

/// Plan the tag creation call.
pub fn tag_create_plan(owner: &str, repo: &str, p: &TagCreateParams) -> (plan: RequestPlan)
    ensures
        plan.method == Method::Post,
        plan.path@ == "/repos/"@ + owner@ + "/"@ + repo@ + "/tags"@,
        plan.query.deep_view() == Seq::<(Seq<char>, Seq<char>)>::empty(),
        body_jv(plan) == Some(spec_tag_create_body(*p)),
{
    let mut fields: Vec<(String, Json)> = Vec::new();
    push_field(&mut fields, "tag_name", Json::Str(p.tag_name.clone()));
    if let Some(t) = &p.target {
        push_field(&mut fields, "target", Json::Str(t.clone()));
    }
    if let Some(m) = &p.message {
        push_field(&mut fields, "message", Json::Str(m.clone()));
    }
    let body = obj_body(fields);
    proof {
        assert(jv_obj_entries(jv(body)) =~~= jv_obj_entries(spec_tag_create_body(*p)));
        assert(jv(body) == spec_tag_create_body(*p));
    }
    RequestPlan {
        method: Method::Post,
        path: repo_path(owner, repo, "/tags"),
        query: Vec::new(),
        body: Some(body),
    }
}

/// What the tag creation reports.
pub open spec fn spec_tag_create_render(v: Json, p: TagCreateParams) -> Seq<char> {
    "Tag created: "@ + spec_or(spec_get_str(v, "name"@), p.tag_name@)
}

/// Render the tag creation confirmation.
pub fn tag_create_render(val: &Json, p: &TagCreateParams) -> (r: String)
    ensures
        r@ == spec_tag_create_render(*val, *p),
{
    let mut s = String::from_str("Tag created: ");
    match val.get_str("name") {
        Some(n) => s.append(n.as_str()),
        None => s.append(p.tag_name.as_str()),
    }
    s
}

} // verus!
