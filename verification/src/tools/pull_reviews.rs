use vstd::prelude::*;
use vstd::string::StringExecFns;

use crate::json::{spec_get2_str, spec_get_i64, spec_get_str, Json};
use crate::request::{
    body_jv, jv, jv_obj_entries, obj_body, push_field, repo_path_idx, JsonV, Method, RequestPlan,
};
use crate::response::spec_or;
use crate::strutil::{i64_to_string, join, push_part, spec_i64_string, spec_join};

verus! {

pub struct PrReviewListParams {
    /// Repository owner. Optional if `directory` is provided.
    pub owner: Option<String>,
    /// Repository name. Optional if `directory` is provided.
    pub repo: Option<String>,
    /// Local directory to auto-detect owner/repo from.
    pub directory: Option<String>,
    /// Pull request number.
    pub index: i64,
}

pub struct PrReviewCreateParams {
    /// Repository owner. Optional if `directory` is provided.
    pub owner: Option<String>,
    /// Repository name. Optional if `directory` is provided.
    pub repo: Option<String>,
    /// Local directory to auto-detect owner/repo from.
    pub directory: Option<String>,
    /// Pull request number.
    pub index: i64,
    /// Review event type, one of the uppercase event names the backends
    /// accept (approve, request changes, comment).
    pub event: String,
    /// Review body/comment.
    pub body: Option<String>,
}

/// Plan the review listing call.
pub fn pr_review_list_plan(owner: &str, repo: &str, p: &PrReviewListParams) -> (plan: RequestPlan)
    ensures
        plan.method == Method::Get,
        plan.path@ == "/repos/"@ + owner@ + "/"@ + repo@ + "/pulls/"@ + spec_i64_string(
            p.index as int,
        ) + "/reviews"@,
        plan.query.deep_view() == Seq::<(Seq<char>, Seq<char>)>::empty(),
        plan.body is None,
{
    RequestPlan {
        method: Method::Get,
        path: repo_path_idx(owner, repo, "/pulls/", p.index, "/reviews"),
        query: Vec::new(),
        body: None,
    }
}

/// One line of a review listing; a non-empty body adds an indented second
/// line.
pub open spec fn spec_review_line(j: Json) -> Seq<char> {
    let id: int = match spec_get_i64(j, "id"@) {
        Some(n) => n as int,
        None => 0,
    };
    let user = spec_or(spec_get2_str(j, "user"@, "login"@), "unknown"@);
    let state = spec_or(spec_get_str(j, "state"@), "unknown"@);
    let body = spec_or(spec_get_str(j, "body"@), Seq::empty());
    let head = "- Review #"@ + spec_i64_string(id) + " by "@ + user + ": "@ + state;
    if body.len() == 0 {
        head
    } else {
        head + "\n  "@ + body
    }
}

/// The lines of a review listing.
pub open spec fn spec_review_lines(items: Seq<Json>) -> Seq<Seq<char>>
    decreases items.len(),
{
    if items.len() == 0 {
        Seq::empty()
    } else {
        spec_review_lines(items.subrange(0, items.len() - 1)).push(
            spec_review_line(items[items.len() - 1]),
        )
    }
}

/// What the review listing renders for a response value.
pub open spec fn spec_review_list_render(v: Json) -> Seq<char> {
    let items = match v {
        Json::Arr(i) => i@,
        _ => Seq::<Json>::empty(),
    };
    if items.len() == 0 {
        "No reviews found."@
    } else {
        spec_join(spec_review_lines(items), "\n"@)
    }
}

/// Render the review listing response.
pub fn pr_review_list_render(val: &Json) -> (r: String)
    ensures
        r@ == spec_review_list_render(*val),
{
    let items: &Vec<Json> = match val {
        Json::Arr(items) => items,
        _ => {
            return String::from_str("No reviews found.");
        },
    };
    if items.len() == 0 {
        return String::from_str("No reviews found.");
    }
    let mut lines: Vec<String> = Vec::new();
    let n = items.len();
    let mut i: usize = 0;
    while i < n
        invariant
            0 <= i <= n,
            n == items@.len(),
            lines.deep_view() == spec_review_lines(items@.subrange(0, i as int)),
        decreases n - i,
    {
        let j = &items[i];
        let id = match j.get_i64("id") {
            Some(x) => x,
            None => 0,
        };
        let mut line = String::from_str("- Review #");
        let num = i64_to_string(id);
        line.append(num.as_str());
        line.append(" by ");
        match j.get2_str("user", "login") {
            Some(u) => line.append(u.as_str()),
            None => line.append("unknown"),
        }
        line.append(": ");
        match j.get_str("state") {
            Some(s) => line.append(s.as_str()),
            None => line.append("unknown"),
        }
        match j.get_str("body") {
            Some(b) => {
                if !b.as_str().is_empty() {
                    line.append("\n  ");
                    line.append(b.as_str());
                }
            },
            None => {},
        }
        push_part(&mut lines, line);
        proof {
            let now = items@.subrange(0, i + 1);
            assert(now.subrange(0, now.len() - 1) =~= items@.subrange(0, i as int));
            assert(now[now.len() - 1] == items@[i as int]);
            assert(lines.deep_view() =~= spec_review_lines(now));
        }
        i += 1;
    }
    proof {
        assert(items@.subrange(0, items@.len() as int) =~= items@);
    }
    join(&lines, "\n")
}

/// The body a review submission sends: the event, and the comment when
/// given.
pub open spec fn spec_review_create_body(p: PrReviewCreateParams) -> JsonV {
    JsonV::Obj(
        seq![("event"@, JsonV::Str(p.event@))] + (match p.body {
            Some(b) => seq![("body"@, JsonV::Str(b@))],
            None => Seq::<(Seq<char>, JsonV)>::empty(),
        }),
    )
}

/// Plan the review submission call.
pub fn pr_review_create_plan(owner: &str, repo: &str, p: &PrReviewCreateParams) -> (plan:
    RequestPlan)
    ensures
        plan.method == Method::Post,
        plan.path@ == "/repos/"@ + owner@ + "/"@ + repo@ + "/pulls/"@ + spec_i64_string(
            p.index as int,
        ) + "/reviews"@,
        plan.query.deep_view() == Seq::<(Seq<char>, Seq<char>)>::empty(),
        body_jv(plan) == Some(spec_review_create_body(*p)),
{
    let mut fields: Vec<(String, Json)> = Vec::new();
    push_field(&mut fields, "event", Json::Str(p.event.clone()));
    if let Some(b) = &p.body {
        push_field(&mut fields, "body", Json::Str(b.clone()));
    }
    let body = obj_body(fields);
    proof {
        assert(jv_obj_entries(jv(body)) =~~= jv_obj_entries(spec_review_create_body(*p)));
        assert(jv(body) == spec_review_create_body(*p));
    }
    RequestPlan {
        method: Method::Post,
        path: repo_path_idx(owner, repo, "/pulls/", p.index, "/reviews"),
        query: Vec::new(),
        body: Some(body),
    }
}

/// What the review submission reports: the submitted review's state, with
/// its fallback.
pub open spec fn spec_review_create_render(v: Json) -> Seq<char> {
    "Review submitted: "@ + spec_or(spec_get_str(v, "state"@), "submitted"@)
}

/// Render the review submission confirmation.
pub fn pr_review_create_render(val: &Json) -> (r: String)
    ensures
        r@ == spec_review_create_render(*val),
{
    let mut s = String::from_str("Review submitted: ");
    match val.get_str("state") {
        Some(st) => s.append(st.as_str()),
        None => s.append("submitted"),
    }
    s
}

} // verus!
