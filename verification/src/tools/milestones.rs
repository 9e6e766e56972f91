use vstd::prelude::*;
use vstd::string::StringExecFns;

use crate::json::{spec_get_i64, spec_get_str, Json};
use crate::request::{
    body_jv, jv, jv_obj_entries, obj_body, push_field, push_query, repo_idx_path, repo_path,
    JsonV, Method, RequestPlan,
};
use crate::response::spec_or;
use crate::strutil::{i64_to_string, join, push_part, spec_i64_string, spec_join};

verus! {

pub struct MilestoneListParams {
    /// Repository owner. Optional if `directory` is provided.
    pub owner: Option<String>,
    /// Repository name. Optional if `directory` is provided.
    pub repo: Option<String>,
    /// Local directory to auto-detect owner/repo from.
    pub directory: Option<String>,
    /// Filter by state: open, closed, or all. Defaults to open.
    pub state: Option<String>,
}

pub struct MilestoneGetParams {
    /// Repository owner. Optional if `directory` is provided.
    pub owner: Option<String>,
    /// Repository name. Optional if `directory` is provided.
    pub repo: Option<String>,
    /// Local directory to auto-detect owner/repo from.
    pub directory: Option<String>,
    /// Milestone ID.
    pub id: i64,
}

pub struct MilestoneCreateParams {
    /// Repository owner. Optional if `directory` is provided.
    pub owner: Option<String>,
    /// Repository name. Optional if `directory` is provided.
    pub repo: Option<String>,
    /// Local directory to auto-detect owner/repo from.
    pub directory: Option<String>,
    /// Milestone title.
    pub title: String,
    /// Milestone description.
    pub description: Option<String>,
    /// Due date in ISO 8601 form.
    pub due_on: Option<String>,
}

/// Plan the milestone listing call.
pub fn milestone_list_plan(owner: &str, repo: &str, p: &MilestoneListParams) -> (plan: RequestPlan)
    ensures
        plan.method == Method::Get,
        plan.path@ == "/repos/"@ + owner@ + "/"@ + repo@ + "/milestones"@,
        plan.query.deep_view() == seq![
            (
                "state"@,
                match p.state {
                    Some(s) => s@,
                    None => "open"@,
                },
            ),
        ],
        plan.body is None,
{
    let mut q: Vec<(String, String)> = Vec::new();
    match &p.state {
        Some(s) => push_query(&mut q, "state", s.clone()),
        None => push_query(&mut q, "state", String::from_str("open")),
    }
    proof {
        assert(q.deep_view() =~= seq![
            (
                "state"@,
                match p.state {
                    Some(s) => s@,
                    None => "open"@,
                },
            ),
        ]);
    }
    RequestPlan {
        method: Method::Get,
        path: repo_path(owner, repo, "/milestones"),
        query: q,
        body: None,
    }
}

/// One line of a milestone listing.
pub open spec fn spec_milestone_line(j: Json) -> Seq<char> {
    let title = spec_or(spec_get_str(j, "title"@), "?"@);
    let state = spec_or(spec_get_str(j, "state"@), "?"@);
    let id: int = match spec_get_i64(j, "id"@) {
        Some(n) => n as int,
        None => 0,
    };
    let open_issues: int = match spec_get_i64(j, "open_issues"@) {
        Some(n) => n as int,
        None => 0,
    };
    let closed_issues: int = match spec_get_i64(j, "closed_issues"@) {
        Some(n) => n as int,
        None => 0,
    };
    "- "@ + title + " ("@ + state + ") [id: "@ + spec_i64_string(id) + "] - "@ + spec_i64_string(
        open_issues,
    ) + " open, "@ + spec_i64_string(closed_issues) + " closed"@
}

/// The lines of a milestone listing.
pub open spec fn spec_milestone_lines(items: Seq<Json>) -> Seq<Seq<char>>
    decreases items.len(),
{
    if items.len() == 0 {
        Seq::empty()
    } else {
        spec_milestone_lines(items.subrange(0, items.len() - 1)).push(
            spec_milestone_line(items[items.len() - 1]),
        )
    }
}

/// What the milestone listing renders for a response value.
pub open spec fn spec_milestone_list_render(v: Json) -> Seq<char> {
    let items = match v {
        Json::Arr(i) => i@,
        _ => Seq::<Json>::empty(),
    };
    if items.len() == 0 {
        "No milestones found."@
    } else {
        spec_join(spec_milestone_lines(items), "\n"@)
    }
}

/// Render the milestone listing response.
pub fn milestone_list_render(val: &Json) -> (r: String)
    ensures
        r@ == spec_milestone_list_render(*val),
{
    let items: &Vec<Json> = match val {
        Json::Arr(items) => items,
        _ => {
            return String::from_str("No milestones found.");
        },
    };
    if items.len() == 0 {
        return String::from_str("No milestones found.");
    }
    let mut lines: Vec<String> = Vec::new();
    let n = items.len();
    let mut i: usize = 0;
    while i < n
        invariant
            0 <= i <= n,
            n == items@.len(),
            lines.deep_view() == spec_milestone_lines(items@.subrange(0, i as int)),
        decreases n - i,
    {
        let j = &items[i];
        let mut line = String::from_str("- ");
        match j.get_str("title") {
            Some(s) => line.append(s.as_str()),
            None => line.append("?"),
        }
        line.append(" (");
        match j.get_str("state") {
            Some(s) => line.append(s.as_str()),
            None => line.append("?"),
        }
        line.append(") [id: ");
        let id = match j.get_i64("id") {
            Some(x) => x,
            None => 0,
        };
        let num = i64_to_string(id);
        line.append(num.as_str());
        line.append("] - ");
        let open_issues = match j.get_i64("open_issues") {
            Some(x) => x,
            None => 0,
        };
        let num2 = i64_to_string(open_issues);
        line.append(num2.as_str());
        line.append(" open, ");
        let closed_issues = match j.get_i64("closed_issues") {
            Some(x) => x,
            None => 0,
        };
        let num3 = i64_to_string(closed_issues);
        line.append(num3.as_str());
        line.append(" closed");
        push_part(&mut lines, line);
        proof {
            let now = items@.subrange(0, i + 1);
            assert(now.subrange(0, now.len() - 1) =~= items@.subrange(0, i as int));
            assert(now[now.len() - 1] == items@[i as int]);
            assert(lines.deep_view() =~= spec_milestone_lines(now));
        }
        i += 1;
    }
    proof {
        assert(items@.subrange(0, items@.len() as int) =~= items@);
    }
    join(&lines, "\n")
}

/// Plan the single milestone fetch; its renderer is the general value
/// normalizer.
pub fn milestone_get_plan(owner: &str, repo: &str, p: &MilestoneGetParams) -> (plan: RequestPlan)
    ensures
        plan.method == Method::Get,
        plan.path@ == "/repos/"@ + owner@ + "/"@ + repo@ + "/milestones/"@ + spec_i64_string(
            p.id as int,
        ),
        plan.query.deep_view() == Seq::<(Seq<char>, Seq<char>)>::empty(),
        plan.body is None,
{
    RequestPlan {
        method: Method::Get,
        path: repo_idx_path(owner, repo, "/milestones/", p.id),
        query: Vec::new(),
        body: None,
    }
}

/// The body a milestone creation sends.
pub open spec fn spec_milestone_create_body(p: MilestoneCreateParams) -> JsonV {
    JsonV::Obj(
        seq![("title"@, JsonV::Str(p.title@))] + (match p.description {
            Some(d) => seq![("description"@, JsonV::Str(d@))],
            None => Seq::<(Seq<char>, JsonV)>::empty(),
        }) + (match p.due_on {
            Some(d) => seq![("due_on"@, JsonV::Str(d@))],
            None => Seq::<(Seq<char>, JsonV)>::empty(),
        }),
    )
}

/// Plan the milestone creation call.
pub fn milestone_create_plan(owner: &str, repo: &str, p: &MilestoneCreateParams) -> (plan:
    RequestPlan)
    ensures
        plan.method == Method::Post,
        plan.path@ == "/repos/"@ + owner@ + "/"@ + repo@ + "/milestones"@,
        plan.query.deep_view() == Seq::<(Seq<char>, Seq<char>)>::empty(),
        body_jv(plan) == Some(spec_milestone_create_body(*p)),
{
    let mut fields: Vec<(String, Json)> = Vec::new();
    push_field(&mut fields, "title", Json::Str(p.title.clone()));
    if let Some(d) = &p.description {
        push_field(&mut fields, "description", Json::Str(d.clone()));
    }
    if let Some(d) = &p.due_on {
        push_field(&mut fields, "due_on", Json::Str(d.clone()));
    }
    let body = obj_body(fields);
    proof {
        assert(jv_obj_entries(jv(body)) =~~= jv_obj_entries(spec_milestone_create_body(*p)));
        assert(jv(body) == spec_milestone_create_body(*p));
    }
    RequestPlan {
        method: Method::Post,
        path: repo_path(owner, repo, "/milestones"),
        query: Vec::new(),
        body: Some(body),
    }
}

/// What the milestone creation reports.
pub open spec fn spec_milestone_create_render(v: Json, p: MilestoneCreateParams) -> Seq<char> {
    "Milestone created: "@ + spec_or(spec_get_str(v, "title"@), p.title@)
}

/// Render the milestone creation confirmation.
pub fn milestone_create_render(val: &Json, p: &MilestoneCreateParams) -> (r: String)
    ensures
        r@ == spec_milestone_create_render(*val, *p),
{
    let mut s = String::from_str("Milestone created: ");
    match val.get_str("title") {
        Some(t) => s.append(t.as_str()),
        None => s.append(p.title.as_str()),
    }
    s
}

} // verus!
