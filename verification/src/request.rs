use vstd::prelude::*;
use vstd::string::StrSliceExecFns;
use vstd::string::StringExecFns;

use crate::json::Json;
use crate::strutil::{i64_to_string, spec_i64_string};

verus! {

/// The mathematical shape of a JSON value: what a request body holds, with
/// every string a character sequence.
pub enum JsonV {
    Null,
    Bool(bool),
    Int(int),
    Num(Seq<char>),
    Str(Seq<char>),
    Arr(Seq<JsonV>),
    Obj(Seq<(Seq<char>, JsonV)>),
}

/// The shape of a JSON value.
pub open spec fn jv(j: Json) -> JsonV
    decreases j,
{
    match j {
        Json::Null => JsonV::Null,
        Json::Bool(b) => JsonV::Bool(b),
        Json::Int(n) => JsonV::Int(n as int),
        Json::Num(s) => JsonV::Num(s@),
        Json::Str(s) => JsonV::Str(s@),
        Json::Arr(items) => JsonV::Arr(jv_list(items@)),
        Json::Obj(fields) => JsonV::Obj(jv_fields(fields@)),
    }
}

/// The shapes of a sequence of JSON values.
pub open spec fn jv_list(items: Seq<Json>) -> Seq<JsonV>
    decreases items,
{
    if items.len() == 0 {
        Seq::empty()
    } else {
        jv_list(items.subrange(0, items.len() - 1)).push(jv(items[items.len() - 1]))
    }
}

/// The shapes of an object's field list.
pub open spec fn jv_fields(fields: Seq<(String, Json)>) -> Seq<(Seq<char>, JsonV)>
    decreases fields,
{
    if fields.len() == 0 {
        Seq::empty()
    } else {
        jv_fields(fields.subrange(0, fields.len() - 1)).push(
            (fields[fields.len() - 1].0@, jv(fields[fields.len() - 1].1)),
        )
    }
}

/// The shape of a value list, element by element.
pub proof fn lemma_jv_list_pointwise(items: Seq<Json>, expected: Seq<JsonV>)
    requires
        expected.len() == items.len(),
        forall|i: int| 0 <= i < items.len() ==> jv(items[i]) == expected[i],
    ensures
        jv_list(items) == expected,
    decreases items.len(),
{
    if items.len() > 0 {
        lemma_jv_list_pointwise(
            items.subrange(0, items.len() - 1),
            expected.subrange(0, expected.len() - 1),
        );
        assert(jv_list(items) =~= expected);
    } else {
        assert(jv_list(items) =~= expected);
    }
}

/// The uniform verbs of the client capability interface.
#[derive(Debug, Clone, Copy, PartialEq, Eq, Structural)]
pub enum Method {
    /// GET returning parsed JSON.
    Get,
    /// GET returning raw text, under the platform's raw accept header.
    GetRaw,
    /// POST with a JSON body, returning parsed JSON.
    Post,
    /// Write returning no meaningful body; Gitea sends POST, GitHub PUT.
    PostNoContent,
    /// PUT with a JSON body, returning parsed JSON.
    Put,
    /// PATCH with a JSON body, returning parsed JSON.
    Patch,
    /// DELETE without a body.
    Delete,
    /// DELETE with a JSON body.
    DeleteWithBody,
}

/// One planned client call: the verb, the API path, query parameters, and
/// an optional JSON body. The transport executes it verbatim.
#[derive(Debug)]
pub struct RequestPlan {
    pub method: Method,
    pub path: String,
    pub query: Vec<(String, String)>,
    pub body: Option<Json>,
}

/// The shape of a plan's body: the body's value shape, when one is set.
pub open spec fn body_jv(plan: RequestPlan) -> Option<JsonV> {
    match plan.body {
        Some(b) => Some(jv(b)),
        None => None,
    }
}

/// Append one query parameter.
pub fn push_query(q: &mut Vec<(String, String)>, key: &str, value: String)
    ensures
        final(q).deep_view() == old(q).deep_view().push((key@, value@)),
{
    let ghost pre = q.deep_view();
    q.push((String::from_str(key), value));
    proof {
        assert(q.deep_view() =~= pre.push((key@, value@)));
    }
}

/// Append one object field to a body under construction.
pub fn push_field(fields: &mut Vec<(String, Json)>, key: &str, value: Json)
    ensures
        jv_fields(final(fields)@) == jv_fields(old(fields)@).push((key@, jv(value))),
{
    let ghost pre = fields@;
    fields.push((String::from_str(key), value));
    proof {
        assert(fields@.subrange(0, fields@.len() - 1) =~= pre);
    }
}

/// The field list of an object shape.
pub open spec fn jv_obj_entries(v: JsonV) -> Seq<(Seq<char>, JsonV)> {
    match v {
        JsonV::Obj(fields) => fields,
        _ => Seq::empty(),
    }
}

/// An object body from a built field list.
pub fn obj_body(fields: Vec<(String, Json)>) -> (r: Json)
    ensures
        jv(r) == JsonV::Obj(jv_fields(fields@)),
{
    Json::Obj(fields)
}

/// A JSON array of integers.
pub fn json_ints(xs: &Vec<i64>) -> (r: Json)
    ensures
        jv(r) == JsonV::Arr(xs@.map_values(|x: i64| JsonV::Int(x as int))),
{
    let mut items: Vec<Json> = Vec::new();
    let n = xs.len();
    let mut i: usize = 0;
    while i < n
        invariant
            0 <= i <= n,
            n == xs@.len(),
            items@.len() == i,
            forall|k: int| 0 <= k < i ==> items@[k] == Json::Int(xs@[k]),
        decreases n - i,
    {
        items.push(Json::Int(xs[i]));
        i += 1;
    }
    let r = Json::Arr(items);
    proof {
        lemma_jv_list_pointwise(items@, xs@.map_values(|x: i64| JsonV::Int(x as int)));
    }
    r
}

/// A JSON array of strings.
pub fn json_strs(xs: &Vec<String>) -> (r: Json)
    ensures
        jv(r) == JsonV::Arr(xs@.map_values(|x: String| JsonV::Str(x@))),
{
    let mut items: Vec<Json> = Vec::new();
    let n = xs.len();
    let mut i: usize = 0;
    while i < n
        invariant
            0 <= i <= n,
            n == xs@.len(),
            items@.len() == i,
            forall|k: int| 0 <= k < i ==> items@[k] == Json::Str(xs@[k]),
        decreases n - i,
    {
        items.push(Json::Str(xs[i].clone()));
        proof {
            assert(items@[i as int] == Json::Str(xs@[i as int]));
        }
        i += 1;
    }
    let r = Json::Arr(items);
    proof {
        lemma_jv_list_pointwise(items@, xs@.map_values(|x: String| JsonV::Str(x@)));
    }
    r
}

/// The path `/repos/{owner}/{repo}{suffix}`.
pub fn repo_path(owner: &str, repo: &str, suffix: &str) -> (r: String)
    ensures
        r@ == "/repos/"@ + owner@ + "/"@ + repo@ + suffix@,
{
    let mut s = String::from_str("/repos/");
    s.append(owner);
    s.append("/");
    s.append(repo);
    s.append(suffix);
    s
}

/// The path `/repos/{owner}/{repo}{mid}{index}{suffix}`.
pub fn repo_path_idx(owner: &str, repo: &str, mid: &str, index: i64, suffix: &str) -> (r: String)
    ensures
        r@ == "/repos/"@ + owner@ + "/"@ + repo@ + mid@ + spec_i64_string(index as int) + suffix@,
{
    let mut s = String::from_str("/repos/");
    s.append(owner);
    s.append("/");
    s.append(repo);
    s.append(mid);
    let num = i64_to_string(index);
    s.append(num.as_str());
    s.append(suffix);
    s
}

/// The path `/repos/{owner}/{repo}{mid}{index}`.
pub fn repo_idx_path(owner: &str, repo: &str, mid: &str, index: i64) -> (r: String)
    ensures
        r@ == "/repos/"@ + owner@ + "/"@ + repo@ + mid@ + spec_i64_string(index as int),
{
    let mut s = String::from_str("/repos/");
    s.append(owner);
    s.append("/");
    s.append(repo);
    s.append(mid);
    let num = i64_to_string(index);
    s.append(num.as_str());
    s
}

/// The path `/repos/{owner}/{repo}{mid}{name}{suffix}`.
pub fn repo_path_seg(owner: &str, repo: &str, mid: &str, name: &str, suffix: &str) -> (r: String)
    ensures
        r@ == "/repos/"@ + owner@ + "/"@ + repo@ + mid@ + name@ + suffix@,
{
    let mut s = String::from_str("/repos/");
    s.append(owner);
    s.append("/");
    s.append(repo);
    s.append(mid);
    s.append(name);
    s.append(suffix);
    s
}

} // verus!
