use vstd::prelude::*;

use crate::json::Json;
use crate::request::{body_jv, obj_body, push_field, JsonV, Method, RequestPlan};
use crate::response::{format_comment_list, spec_format_comment_list};
use crate::strutil::spec_i64_string;

verus! {

pub struct IssueCommentListParams {
    /// Repository owner. Optional if `directory` is provided.
    pub owner: Option<String>,
    /// Repository name. Optional if `directory` is provided.
    pub repo: Option<String>,
    /// Local directory to auto-detect owner/repo from.
    pub directory: Option<String>,
    /// Issue number.
    pub index: i64,
}

pub struct IssueCommentCreateParams {
    /// Repository owner. Optional if `directory` is provided.
    pub owner: Option<String>,
    /// Repository name. Optional if `directory` is provided.
    pub repo: Option<String>,
    /// Local directory to auto-detect owner/repo from.
    pub directory: Option<String>,
    /// Issue number.
    pub index: i64,
    /// Comment body in markdown.
    pub body: String,
}

/// Plan the comment listing call.
pub fn issue_comment_list_plan(owner: &str, repo: &str, p: &IssueCommentListParams) -> (plan:
    RequestPlan)
    ensures
        plan.method == Method::Get,
        plan.path@ == "/repos/"@ + owner@ + "/"@ + repo@ + "/issues/"@ + spec_i64_string(
            p.index as int,
        ) + "/comments"@,
        plan.query.deep_view() == Seq::<(Seq<char>, Seq<char>)>::empty(),
        plan.body is None,
{
    RequestPlan {
        method: Method::Get,
        path: crate::request::repo_path_idx(owner, repo, "/issues/", p.index, "/comments"),
        query: Vec::new(),
        body: None,
    }
}

/// What the comment listing renders: comments as the normalizer shows
/// them, and the empty placeholder for anything that is not an array.
pub open spec fn spec_comment_list_render(v: Json) -> Seq<char> {
    match v {
        Json::Arr(items) => spec_format_comment_list(items@),
        _ => spec_format_comment_list(Seq::<Json>::empty()),
    }
}

/// Render the comment listing response.
pub fn issue_comment_list_render(val: &Json) -> (r: String)
    ensures
        r@ == spec_comment_list_render(*val),
{
    match val {
        Json::Arr(items) => format_comment_list(items),
        _ => {
            let empty: Vec<Json> = Vec::new();
            format_comment_list(&empty)
        },
    }
}

/// Plan the comment creation call; the body carries the comment text.
pub fn issue_comment_create_plan(owner: &str, repo: &str, p: &IssueCommentCreateParams) -> (plan:
    RequestPlan)
    ensures
        plan.method == Method::Post,
        plan.path@ == "/repos/"@ + owner@ + "/"@ + repo@ + "/issues/"@ + spec_i64_string(
            p.index as int,
        ) + "/comments"@,
        plan.query.deep_view() == Seq::<(Seq<char>, Seq<char>)>::empty(),
        body_jv(plan) == Some(JsonV::Obj(seq![("body"@, JsonV::Str(p.body@))])),
{
    let mut fields: Vec<(String, Json)> = Vec::new();
    push_field(&mut fields, "body", Json::Str(p.body.clone()));
    let body = obj_body(fields);
    proof {
        assert(crate::request::jv_obj_entries(crate::request::jv(body)) =~~= seq![
            ("body"@, JsonV::Str(p.body@)),
        ]);
        assert(crate::request::jv(body) == JsonV::Obj(seq![("body"@, JsonV::Str(p.body@))]));
    }
    RequestPlan {
        method: Method::Post,
        path: crate::request::repo_path_idx(owner, repo, "/issues/", p.index, "/comments"),
        query: Vec::new(),
        body: Some(body),
    }
}

} // verus!
