use vstd::prelude::*;
use vstd::string::StringExecFns;
use vstd::utf8::encode_utf8;

use crate::json::{spec_get2_str, spec_get_arr, spec_get_str, Json};
use crate::request::{
    body_jv, jv, jv_obj_entries, obj_body, push_field, repo_path, JsonV, Method, RequestPlan,
};
use crate::response::spec_or;
use crate::strutil::{
    join, push_part, spec_join, spec_trim_start_char, str_eq, trim_start_char,
};
use crate::trusted::{b64_encode, b64_of};

verus! {

pub struct FileReadParams {
    /// Repository owner. Optional if `directory` is provided.
    pub owner: Option<String>,
    /// Repository name. Optional if `directory` is provided.
    pub repo: Option<String>,
    /// Local directory to auto-detect owner/repo from.
    pub directory: Option<String>,
    /// File path within the repository.
    pub path: String,
    /// Git ref (branch, tag, or commit hash). Defaults to the default branch.
    pub git_ref: Option<String>,
}

pub struct FileListParams {
    /// Repository owner. Optional if `directory` is provided.
    pub owner: Option<String>,
    /// Repository name. Optional if `directory` is provided.
    pub repo: Option<String>,
    /// Local directory to auto-detect owner/repo from.
    pub directory: Option<String>,
    /// Directory path within the repository. Empty or "/" for root.
    pub path: Option<String>,
    /// Git ref (branch, tag, or commit hash). Defaults to the default branch.
    pub git_ref: Option<String>,
}

pub struct FileCreateParams {
    /// Repository owner. Optional if `directory` is provided.
    pub owner: Option<String>,
    /// Repository name. Optional if `directory` is provided.
    pub repo: Option<String>,
    /// Local directory to auto-detect owner/repo from.
    pub directory: Option<String>,
    /// File path to create.
    pub path: String,
    /// File content (plain text, encoded automatically).
    pub content: String,
    /// Commit message.
    pub message: String,
    /// Branch to commit to. Defaults to the default branch.
    pub branch: Option<String>,
    /// New branch to create from `branch`.
    pub new_branch: Option<String>,
}

pub struct FileUpdateParams {
    /// Repository owner. Optional if `directory` is provided.
    pub owner: Option<String>,
    /// Repository name. Optional if `directory` is provided.
    pub repo: Option<String>,
    /// Local directory to auto-detect owner/repo from.
    pub directory: Option<String>,
    /// File path to update.
    pub path: String,
    /// New file content (plain text, encoded automatically).
    pub content: String,
    /// Hash of the file being replaced.
    pub sha: String,
    /// Commit message.
    pub message: String,
    /// Branch to commit to.
    pub branch: Option<String>,
    /// New branch to create from `branch`.
    pub new_branch: Option<String>,
}

pub struct FileDeleteParams {
    /// Repository owner. Optional if `directory` is provided.
    pub owner: Option<String>,
    /// Repository name. Optional if `directory` is provided.
    pub repo: Option<String>,
    /// Local directory to auto-detect owner/repo from.
    pub directory: Option<String>,
    /// File path to delete.
    pub path: String,
    /// Hash of the file being deleted.
    pub sha: String,
    /// Commit message.
    pub message: String,
    /// Branch to commit to.
    pub branch: Option<String>,
}

pub struct TreeGetParams {
    /// Repository owner. Optional if `directory` is provided.
    pub owner: Option<String>,
    /// Repository name. Optional if `directory` is provided.
    pub repo: Option<String>,
    /// Local directory to auto-detect owner/repo from.
    pub directory: Option<String>,
    /// Git ref (branch, tag, or hash). Defaults to HEAD.
    pub git_ref: Option<String>,
}

/// The contents path a file call targets, with an optional ref query
/// folded into it.
pub open spec fn spec_contents_path(
    owner: Seq<char>,
    repo: Seq<char>,
    path: Seq<char>,
    git_ref: Option<String>,
) -> Seq<char> {
    "/repos/"@ + owner + "/"@ + repo + "/contents/"@ + spec_trim_start_char(path, '/') + (
    match git_ref {
        Some(r) => "?ref="@ + r@,
        None => Seq::<char>::empty(),
    })
}

fn contents_path(owner: &str, repo: &str, path: &str, git_ref: &Option<String>) -> (r: String)
    ensures
        r@ == spec_contents_path(owner@, repo@, path@, *git_ref),
{
    let mut s = repo_path(owner, repo, "/contents/");
    s.append(trim_start_char(path, '/'));
    if let Some(gr) = git_ref {
        s.append("?ref=");
        s.append(gr.as_str());
    }
    s
}

/// Plan the file read call; the renderer for its response is the
/// normalizer's file content formatter.
pub fn file_read_plan(owner: &str, repo: &str, p: &FileReadParams) -> (plan: RequestPlan)
    ensures
        plan.method == Method::Get,
        plan.path@ == spec_contents_path(owner@, repo@, p.path@, p.git_ref),
        plan.query.deep_view() == Seq::<(Seq<char>, Seq<char>)>::empty(),
        plan.body is None,
{
    RequestPlan {
        method: Method::Get,
        path: contents_path(owner, repo, p.path.as_str(), &p.git_ref),
        query: Vec::new(),
        body: None,
    }
}

/// Plan the directory listing call; its renderer is the normalizer's
/// directory listing formatter.
pub fn file_list_plan(owner: &str, repo: &str, p: &FileListParams) -> (plan: RequestPlan)
    ensures
        plan.method == Method::Get,
        plan.path@ == spec_contents_path(
            owner@,
            repo@,
            match p.path {
                Some(pp) => pp@,
                None => Seq::<char>::empty(),
            },
            p.git_ref,
        ),
        plan.query.deep_view() == Seq::<(Seq<char>, Seq<char>)>::empty(),
        plan.body is None,
{
    let path = match &p.path {
        Some(pp) => contents_path(owner, repo, pp.as_str(), &p.git_ref),
        None => contents_path(owner, repo, "", &p.git_ref),
    };
    proof {
        reveal_strlit("");
        assert(""@ =~= Seq::<char>::empty());
    }
    RequestPlan { method: Method::Get, path, query: Vec::new(), body: None }
}

/// The body a file creation sends: the base64 of the content, the commit
/// message, and the optional branch coordinates.
pub open spec fn spec_file_create_body(p: FileCreateParams) -> JsonV {
    JsonV::Obj(
        seq![
            ("content"@, JsonV::Str(b64_of(encode_utf8(p.content@)))),
            ("message"@, JsonV::Str(p.message@)),
        ] + (match p.branch {
            Some(b) => seq![("branch"@, JsonV::Str(b@))],
            None => Seq::<(Seq<char>, JsonV)>::empty(),
        }) + (match p.new_branch {
            Some(b) => seq![("new_branch"@, JsonV::Str(b@))],
            None => Seq::<(Seq<char>, JsonV)>::empty(),
        }),
    )
}

/// Plan the file creation call. The length bound keeps the base64 encoder
/// within addressable output.
pub fn file_create_plan(owner: &str, repo: &str, p: &FileCreateParams) -> (plan: RequestPlan)
    requires
        (encode_utf8(p.content@).len() + 2) / 3 * 4 <= usize::MAX,
    ensures
        plan.method == Method::Post,
        plan.path@ == spec_contents_path(owner@, repo@, p.path@, None),
        plan.query.deep_view() == Seq::<(Seq<char>, Seq<char>)>::empty(),
        body_jv(plan) == Some(spec_file_create_body(*p)),
{
    let encoded = b64_encode(p.content.as_str().as_bytes());
    let mut fields: Vec<(String, Json)> = Vec::new();
    push_field(&mut fields, "content", Json::Str(encoded));
    push_field(&mut fields, "message", Json::Str(p.message.clone()));
    if let Some(b) = &p.branch {
        push_field(&mut fields, "branch", Json::Str(b.clone()));
    }
    if let Some(b) = &p.new_branch {
        push_field(&mut fields, "new_branch", Json::Str(b.clone()));
    }
    let body = obj_body(fields);
    proof {
        assert(jv_obj_entries(jv(body)) =~~= jv_obj_entries(spec_file_create_body(*p)));
        assert(jv(body) == spec_file_create_body(*p));
    }
    RequestPlan {
        method: Method::Post,
        path: contents_path(owner, repo, p.path.as_str(), &None),
        query: Vec::new(),
        body: Some(body),
    }
}

/// What the file creation reports: the path the backend confirms, with
/// the requested (cleaned) path as fallback.
pub open spec fn spec_file_create_render(v: Json, p: FileCreateParams) -> Seq<char> {
    "File created: "@ + spec_or(
        spec_get2_str(v, "content"@, "path"@),
        spec_trim_start_char(p.path@, '/'),
    )
}

/// Render the file creation confirmation.
pub fn file_create_render(val: &Json, p: &FileCreateParams) -> (r: String)
    ensures
        r@ == spec_file_create_render(*val, *p),
{
    let mut s = String::from_str("File created: ");
    match val.get2_str("content", "path") {
        Some(fp) => s.append(fp.as_str()),
        None => s.append(trim_start_char(p.path.as_str(), '/')),
    }
    s
}

/// The body a file update sends.
pub open spec fn spec_file_update_body(p: FileUpdateParams) -> JsonV {
    JsonV::Obj(
        seq![
            ("content"@, JsonV::Str(b64_of(encode_utf8(p.content@)))),
            ("sha"@, JsonV::Str(p.sha@)),
            ("message"@, JsonV::Str(p.message@)),
        ] + (match p.branch {
            Some(b) => seq![("branch"@, JsonV::Str(b@))],
            None => Seq::<(Seq<char>, JsonV)>::empty(),
        }) + (match p.new_branch {
            Some(b) => seq![("new_branch"@, JsonV::Str(b@))],
            None => Seq::<(Seq<char>, JsonV)>::empty(),
        }),
    )
}

/// Plan the file update call.
pub fn file_update_plan(owner: &str, repo: &str, p: &FileUpdateParams) -> (plan: RequestPlan)
    requires
        (encode_utf8(p.content@).len() + 2) / 3 * 4 <= usize::MAX,
    ensures
        plan.method == Method::Put,
        plan.path@ == spec_contents_path(owner@, repo@, p.path@, None),
        plan.query.deep_view() == Seq::<(Seq<char>, Seq<char>)>::empty(),
        body_jv(plan) == Some(spec_file_update_body(*p)),
{
    let encoded = b64_encode(p.content.as_str().as_bytes());
    let mut fields: Vec<(String, Json)> = Vec::new();
    push_field(&mut fields, "content", Json::Str(encoded));
    push_field(&mut fields, "sha", Json::Str(p.sha.clone()));
    push_field(&mut fields, "message", Json::Str(p.message.clone()));
    if let Some(b) = &p.branch {
        push_field(&mut fields, "branch", Json::Str(b.clone()));
    }
    if let Some(b) = &p.new_branch {
        push_field(&mut fields, "new_branch", Json::Str(b.clone()));
    }
    let body = obj_body(fields);
    proof {
        assert(jv_obj_entries(jv(body)) =~~= jv_obj_entries(spec_file_update_body(*p)));
        assert(jv(body) == spec_file_update_body(*p));
    }
    RequestPlan {
        method: Method::Put,
        path: contents_path(owner, repo, p.path.as_str(), &None),
        query: Vec::new(),
        body: Some(body),
    }
}

/// Render the file update confirmation.
pub fn file_update_render(p: &FileUpdateParams) -> (r: String)
    ensures
        r@ == "File updated: "@ + spec_trim_start_char(p.path@, '/'),
{
    let mut s = String::from_str("File updated: ");
    s.append(trim_start_char(p.path.as_str(), '/'));
    s
}

/// The body a file deletion sends.
pub open spec fn spec_file_delete_body(p: FileDeleteParams) -> JsonV {
    JsonV::Obj(
        seq![("sha"@, JsonV::Str(p.sha@)), ("message"@, JsonV::Str(p.message@))] + (match p.branch {
            Some(b) => seq![("branch"@, JsonV::Str(b@))],
            None => Seq::<(Seq<char>, JsonV)>::empty(),
        }),
    )
}

/// Plan the file deletion call: a DELETE that carries a body.
pub fn file_delete_plan(owner: &str, repo: &str, p: &FileDeleteParams) -> (plan: RequestPlan)
    ensures
        plan.method == Method::DeleteWithBody,
        plan.path@ == spec_contents_path(owner@, repo@, p.path@, None),
        plan.query.deep_view() == Seq::<(Seq<char>, Seq<char>)>::empty(),
        body_jv(plan) == Some(spec_file_delete_body(*p)),
{
    let mut fields: Vec<(String, Json)> = Vec::new();
    push_field(&mut fields, "sha", Json::Str(p.sha.clone()));
    push_field(&mut fields, "message", Json::Str(p.message.clone()));
    if let Some(b) = &p.branch {
        push_field(&mut fields, "branch", Json::Str(b.clone()));
    }
    let body = obj_body(fields);
    proof {
        assert(jv_obj_entries(jv(body)) =~~= jv_obj_entries(spec_file_delete_body(*p)));
        assert(jv(body) == spec_file_delete_body(*p));
    }
    RequestPlan {
        method: Method::DeleteWithBody,
        path: contents_path(owner, repo, p.path.as_str(), &None),
        query: Vec::new(),
        body: Some(body),
    }
}

/// Render the file deletion confirmation.
pub fn file_delete_render(p: &FileDeleteParams) -> (r: String)
    ensures
        r@ == "File deleted: "@ + spec_trim_start_char(p.path@, '/'),
{
    let mut s = String::from_str("File deleted: ");
    s.append(trim_start_char(p.path.as_str(), '/'));
    s
}

/// Plan the recursive tree fetch, defaulting the ref to HEAD.
pub fn tree_get_plan(owner: &str, repo: &str, p: &TreeGetParams) -> (plan: RequestPlan)
    ensures
        plan.method == Method::Get,
        plan.path@ == "/repos/"@ + owner@ + "/"@ + repo@ + "/git/trees/"@ + (match p.git_ref {
            Some(r) => r@,
            None => "HEAD"@,
        }) + "?recursive=true"@,
        plan.query.deep_view() == Seq::<(Seq<char>, Seq<char>)>::empty(),
        plan.body is None,
{
    let mut s = repo_path(owner, repo, "/git/trees/");
    match &p.git_ref {
        Some(r) => s.append(r.as_str()),
        None => s.append("HEAD"),
    }
    s.append("?recursive=true");
    RequestPlan { method: Method::Get, path: s, query: Vec::new(), body: None }
}

/// One line of a recursive tree listing: the entry path, trees marked
/// with a trailing slash.
pub open spec fn spec_tree_line(j: Json) -> Seq<char> {
    let path = spec_or(spec_get_str(j, "path"@), "?"@);
    let entry_type = spec_or(spec_get_str(j, "type"@), "blob"@);
    path + (if entry_type == "tree"@ {
        "/"@
    } else {
        Seq::<char>::empty()
    })
}

/// The lines of a recursive tree listing.
pub open spec fn spec_tree_lines(items: Seq<Json>) -> Seq<Seq<char>>
    decreases items.len(),
{
    if items.len() == 0 {
        Seq::empty()
    } else {
        spec_tree_lines(items.subrange(0, items.len() - 1)).push(
            spec_tree_line(items[items.len() - 1]),
        )
    }
}

/// What the tree fetch renders: the entries under the response's `tree`
/// key, or a placeholder when there are none.
pub open spec fn spec_tree_render(v: Json) -> Seq<char> {
    let items = match spec_get_arr(v, "tree"@) {
        Some(i) => i,
        None => Seq::<Json>::empty(),
    };
    if items.len() == 0 {
        "No files found in tree."@
    } else {
        spec_join(spec_tree_lines(items), "\n"@)
    }
}

/// Render the recursive tree response.
pub fn tree_get_render(val: &Json) -> (r: String)
    ensures
        r@ == spec_tree_render(*val),
{
    let items: &Vec<Json> = match val.get_arr("tree") {
        Some(items) => items,
        None => {
            return String::from_str("No files found in tree.");
        },
    };
    if items.len() == 0 {
        return String::from_str("No files found in tree.");
    }
    let mut lines: Vec<String> = Vec::new();
    let n = items.len();
    let mut i: usize = 0;
    while i < n
        invariant
            0 <= i <= n,
            n == items@.len(),
            lines.deep_view() == spec_tree_lines(items@.subrange(0, i as int)),
        decreases n - i,
    {
        let j = &items[i];
        let mut line = String::new();
        match j.get_str("path") {
            Some(s) => line.append(s.as_str()),
            None => line.append("?"),
        }
        let entry_type: &str = match j.get_str("type") {
            Some(s) => s.as_str(),
            None => "blob",
        };
        if str_eq(entry_type, "tree") {
            line.append("/");
        }
        push_part(&mut lines, line);
        proof {
            let now = items@.subrange(0, i + 1);
            assert(now.subrange(0, now.len() - 1) =~= items@.subrange(0, i as int));
            assert(now[now.len() - 1] == items@[i as int]);
            assert(lines.deep_view() =~= spec_tree_lines(now));
        }
        i += 1;
    }
    proof {
        assert(items@.subrange(0, items@.len() as int) =~= items@);
    }
    join(&lines, "\n")
}

} // verus!
