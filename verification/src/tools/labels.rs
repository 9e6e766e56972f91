use vstd::prelude::*;
use vstd::string::StrSliceExecFns;
use vstd::string::StringExecFns;

use crate::json::{spec_get_i64, spec_get_str, Json};
use crate::request::{
    body_jv, jv, jv_obj_entries, obj_body, push_field, repo_idx_path, repo_path, JsonV, Method,
    RequestPlan,
};
use crate::response::spec_or;
use crate::strutil::{i64_to_string, join, push_part, spec_i64_string, spec_join};

verus! {

pub struct LabelListParams {
    /// Repository owner. Optional if `directory` is provided.
    pub owner: Option<String>,
    /// Repository name. Optional if `directory` is provided.
    pub repo: Option<String>,
    /// Local directory to auto-detect owner/repo from.
    pub directory: Option<String>,
}

pub struct LabelCreateParams {
    /// Repository owner. Optional if `directory` is provided.
    pub owner: Option<String>,
    /// Repository name. Optional if `directory` is provided.
    pub repo: Option<String>,
    /// Local directory to auto-detect owner/repo from.
    pub directory: Option<String>,
    /// Label name.
    pub name: String,
    /// Label color as hex, with or without a leading `#`.
    pub color: String,
    /// Label description.
    pub description: Option<String>,
}

pub struct LabelEditParams {
    /// Repository owner. Optional if `directory` is provided.
    pub owner: Option<String>,
    /// Repository name. Optional if `directory` is provided.
    pub repo: Option<String>,
    /// Local directory to auto-detect owner/repo from.
    pub directory: Option<String>,
    /// Label ID.
    pub id: i64,
    /// New label name.
    pub name: Option<String>,
    /// New label color.
    pub color: Option<String>,
    /// New label description.
    pub description: Option<String>,
}

/// Plan the label listing call.
pub fn label_list_plan(owner: &str, repo: &str) -> (plan: RequestPlan)
    ensures
        plan.method == Method::Get,
        plan.path@ == "/repos/"@ + owner@ + "/"@ + repo@ + "/labels"@,
        plan.query.deep_view() == Seq::<(Seq<char>, Seq<char>)>::empty(),
        plan.body is None,
{
    RequestPlan {
        method: Method::Get,
        path: repo_path(owner, repo, "/labels"),
        query: Vec::new(),
        body: None,
    }
}

/// One line of a label listing; a non-empty description is appended.
pub open spec fn spec_label_line(j: Json) -> Seq<char> {
    let name = spec_or(spec_get_str(j, "name"@), "?"@);
    let color = spec_or(spec_get_str(j, "color"@), "000000"@);
    let id: int = match spec_get_i64(j, "id"@) {
        Some(n) => n as int,
        None => 0,
    };
    let desc = spec_or(spec_get_str(j, "description"@), Seq::empty());
    let head = "- "@ + name + " (#"@ + color + ") [id: "@ + spec_i64_string(id) + "]"@;
    if desc.len() == 0 {
        head
    } else {
        head + " - "@ + desc
    }
}

/// The lines of a label listing.
pub open spec fn spec_label_lines(items: Seq<Json>) -> Seq<Seq<char>>
    decreases items.len(),
{
    if items.len() == 0 {
        Seq::empty()
    } else {
        spec_label_lines(items.subrange(0, items.len() - 1)).push(
            spec_label_line(items[items.len() - 1]),
        )
    }
}

/// What the label listing renders for a response value.
pub open spec fn spec_label_list_render(v: Json) -> Seq<char> {
    let items = match v {
        Json::Arr(i) => i@,
        _ => Seq::<Json>::empty(),
    };
    if items.len() == 0 {
        "No labels found."@
    } else {
        spec_join(spec_label_lines(items), "\n"@)
    }
}

/// Render the label listing response.
pub fn label_list_render(val: &Json) -> (r: String)
    ensures
        r@ == spec_label_list_render(*val),
{
    let items: &Vec<Json> = match val {
        Json::Arr(items) => items,
        _ => {
            return String::from_str("No labels found.");
        },
    };
    if items.len() == 0 {
        return String::from_str("No labels found.");
    }
    let mut lines: Vec<String> = Vec::new();
    let n = items.len();
    let mut i: usize = 0;
    while i < n
        invariant
            0 <= i <= n,
            n == items@.len(),
            lines.deep_view() == spec_label_lines(items@.subrange(0, i as int)),
        decreases n - i,
    {
        let j = &items[i];
        let mut line = String::from_str("- ");
        match j.get_str("name") {
            Some(s) => line.append(s.as_str()),
            None => line.append("?"),
        }
        line.append(" (#");
        match j.get_str("color") {
            Some(s) => line.append(s.as_str()),
            None => line.append("000000"),
        }
        line.append(") [id: ");
        let id = match j.get_i64("id") {
            Some(x) => x,
            None => 0,
        };
        let num = i64_to_string(id);
        line.append(num.as_str());
        line.append("]");
        match j.get_str("description") {
            Some(d) => {
                if !d.as_str().is_empty() {
                    line.append(" - ");
                    line.append(d.as_str());
                }
            },
            None => {},
        }
        push_part(&mut lines, line);
        proof {
            let now = items@.subrange(0, i + 1);
            assert(now.subrange(0, now.len() - 1) =~= items@.subrange(0, i as int));
            assert(now[now.len() - 1] == items@[i as int]);
            assert(lines.deep_view() =~= spec_label_lines(now));
        }
        i += 1;
    }
    proof {
        assert(items@.subrange(0, items@.len() as int) =~= items@);
    }
    join(&lines, "\n")
}

/// A label color as sent: a leading `#` added when the caller omitted it.
pub open spec fn spec_color_value(c: Seq<char>) -> Seq<char> {
    if c.len() > 0 && c[0] == '#' {
        c
    } else {
        seq!['#'] + c
    }
}

fn color_value(c: &str) -> (r: String)
    ensures
        r@ == spec_color_value(c@),
{
    let n = c.unicode_len();
    if n > 0 && c.get_char(0) == '#' {
        String::from_str(c)
    } else {
        let mut s = String::from_str("#");
        s.append(c);
        proof {
            reveal_strlit("#");
            assert("#"@ =~= seq!['#']);
        }
        s
    }
}

/// The body a label creation sends.
pub open spec fn spec_label_create_body(p: LabelCreateParams) -> JsonV {
    JsonV::Obj(
        seq![
            ("name"@, JsonV::Str(p.name@)),
            ("color"@, JsonV::Str(spec_color_value(p.color@))),
        ] + (match p.description {
            Some(d) => seq![("description"@, JsonV::Str(d@))],
            None => Seq::<(Seq<char>, JsonV)>::empty(),
        }),
    )
}

/// Plan the label creation call.
pub fn label_create_plan(owner: &str, repo: &str, p: &LabelCreateParams) -> (plan: RequestPlan)
    ensures
        plan.method == Method::Post,
        plan.path@ == "/repos/"@ + owner@ + "/"@ + repo@ + "/labels"@,
        plan.query.deep_view() == Seq::<(Seq<char>, Seq<char>)>::empty(),
        body_jv(plan) == Some(spec_label_create_body(*p)),
{
    let mut fields: Vec<(String, Json)> = Vec::new();
    push_field(&mut fields, "name", Json::Str(p.name.clone()));
    push_field(&mut fields, "color", Json::Str(color_value(p.color.as_str())));
    if let Some(d) = &p.description {
        push_field(&mut fields, "description", Json::Str(d.clone()));
    }
    let body = obj_body(fields);
    proof {
        assert(jv_obj_entries(jv(body)) =~~= jv_obj_entries(spec_label_create_body(*p)));
        assert(jv(body) == spec_label_create_body(*p));
    }
    RequestPlan {
        method: Method::Post,
        path: repo_path(owner, repo, "/labels"),
        query: Vec::new(),
        body: Some(body),
    }
}

/// What the label creation reports.
pub open spec fn spec_label_create_render(v: Json, p: LabelCreateParams) -> Seq<char> {
    "Label created: "@ + spec_or(spec_get_str(v, "name"@), p.name@)
}

/// Render the label creation confirmation.
pub fn label_create_render(val: &Json, p: &LabelCreateParams) -> (r: String)
    ensures
        r@ == spec_label_create_render(*val, *p),
{
    let mut s = String::from_str("Label created: ");
    match val.get_str("name") {
        Some(n) => s.append(n.as_str()),
        None => s.append(p.name.as_str()),
    }
    s
}

/// The body a label edit sends.
pub open spec fn spec_label_edit_body(p: LabelEditParams) -> JsonV {
    JsonV::Obj(
        (match p.name {
            Some(n) => seq![("name"@, JsonV::Str(n@))],
            None => Seq::<(Seq<char>, JsonV)>::empty(),
        }) + (match p.color {
            Some(c) => seq![("color"@, JsonV::Str(spec_color_value(c@)))],
            None => Seq::<(Seq<char>, JsonV)>::empty(),
        }) + (match p.description {
            Some(d) => seq![("description"@, JsonV::Str(d@))],
            None => Seq::<(Seq<char>, JsonV)>::empty(),
        }),
    )
}

/// Plan the label edit call.
pub fn label_edit_plan(owner: &str, repo: &str, p: &LabelEditParams) -> (plan: RequestPlan)
    ensures
        plan.method == Method::Patch,
        plan.path@ == "/repos/"@ + owner@ + "/"@ + repo@ + "/labels/"@ + spec_i64_string(
            p.id as int,
        ),
        plan.query.deep_view() == Seq::<(Seq<char>, Seq<char>)>::empty(),
        body_jv(plan) == Some(spec_label_edit_body(*p)),
{
    let mut fields: Vec<(String, Json)> = Vec::new();
    if let Some(n) = &p.name {
        push_field(&mut fields, "name", Json::Str(n.clone()));
    }
    if let Some(c) = &p.color {
        push_field(&mut fields, "color", Json::Str(color_value(c.as_str())));
    }
    if let Some(d) = &p.description {
        push_field(&mut fields, "description", Json::Str(d.clone()));
    }
    let body = obj_body(fields);
    proof {
        assert(jv_obj_entries(jv(body)) =~~= jv_obj_entries(spec_label_edit_body(*p)));
        assert(jv(body) == spec_label_edit_body(*p));
    }
    RequestPlan {
        method: Method::Patch,
        path: repo_idx_path(owner, repo, "/labels/", p.id),
        query: Vec::new(),
        body: Some(body),
    }
}

/// What the label edit reports.
pub open spec fn spec_label_edit_render(v: Json) -> Seq<char> {
    "Label updated: "@ + spec_or(spec_get_str(v, "name"@), "?"@)
}

/// Render the label edit confirmation.
pub fn label_edit_render(val: &Json) -> (r: String)
    ensures
        r@ == spec_label_edit_render(*val),
{
    let mut s = String::from_str("Label updated: ");
    match val.get_str("name") {
        Some(n) => s.append(n.as_str()),
        None => s.append("?"),
    }
    s
}

} // verus!
