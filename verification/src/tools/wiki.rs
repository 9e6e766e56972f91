use vstd::prelude::*;
use vstd::string::StringExecFns;
use vstd::utf8::encode_utf8;

use crate::error::GitxError;
use crate::json::{spec_get_str, Json};
use crate::platform::Platform;
use crate::request::{
    body_jv, jv, jv_obj_entries, obj_body, push_field, push_query, repo_path, repo_path_seg,
    JsonV, Method, RequestPlan,
};
use crate::response::spec_or;
use crate::strutil::{
    i64_to_string, join, push_part, remove_newlines, spec_i64_string, spec_join,
    spec_remove_newlines,
};
use crate::trusted::{b64_decode, b64_decode_of, b64_encode, b64_of, utf8_of, utf8_string};
use crate::types::common::{limit_value, page_value, spec_limit_value, spec_page_value};

verus! {

pub struct WikiListParams {
    /// Repository owner. Optional if `directory` is provided.
    pub owner: Option<String>,
    /// Repository name. Optional if `directory` is provided.
    pub repo: Option<String>,
    /// Local directory to auto-detect owner/repo from.
    pub directory: Option<String>,
    /// Page number (1-based). Defaults to 1.
    pub page: Option<i64>,
    /// Items per page (max 50). Defaults to 20.
    pub limit: Option<i64>,
}

pub struct WikiGetParams {
    /// Repository owner. Optional if `directory` is provided.
    pub owner: Option<String>,
    /// Repository name. Optional if `directory` is provided.
    pub repo: Option<String>,
    /// Local directory to auto-detect owner/repo from.
    pub directory: Option<String>,
    /// Wiki page slug (URL-encoded page name).
    pub slug: String,
}

pub struct WikiCreateParams {
    /// Repository owner. Optional if `directory` is provided.
    pub owner: Option<String>,
    /// Repository name. Optional if `directory` is provided.
    pub repo: Option<String>,
    /// Local directory to auto-detect owner/repo from.
    pub directory: Option<String>,
    /// Wiki page title.
    pub title: String,
    /// Wiki page content in markdown.
    pub content: String,
}

/// Whether the platform exposes a wiki API at all; only Gitea/Forgejo
/// does.
pub fn wiki_available(platform: Platform) -> (r: bool)
    ensures
        r == (platform is Gitea),
{
    platform == Platform::Gitea
}

/// The fixed text wiki tools answer with on the platform without a wiki
/// API.
pub fn wiki_unavailable_text() -> (r: String)
    ensures
        r@ == "Wiki CRUD is not available on GitHub. GitHub does not expose a wiki API."@,
{
    String::from_str("Wiki CRUD is not available on GitHub. GitHub does not expose a wiki API.")
}

/// Plan the wiki page listing call.
pub fn wiki_list_plan(owner: &str, repo: &str, p: &WikiListParams) -> (plan: RequestPlan)
    ensures
        plan.method == Method::Get,
        plan.path@ == "/repos/"@ + owner@ + "/"@ + repo@ + "/wiki/pages"@,
        plan.query.deep_view() == seq![
            ("page"@, spec_i64_string(spec_page_value(p.page))),
            ("limit"@, spec_i64_string(spec_limit_value(p.limit))),
        ],
        plan.body is None,
{
    let mut q: Vec<(String, String)> = Vec::new();
    push_query(&mut q, "page", i64_to_string(page_value(&p.page)));
    push_query(&mut q, "limit", i64_to_string(limit_value(&p.limit)));
    proof {
        assert(q.deep_view() =~= seq![
            ("page"@, spec_i64_string(spec_page_value(p.page))),
            ("limit"@, spec_i64_string(spec_limit_value(p.limit))),
        ]);
    }
    RequestPlan {
        method: Method::Get,
        path: repo_path(owner, repo, "/wiki/pages"),
        query: q,
        body: None,
    }
}

/// One line of a wiki page listing.
pub open spec fn spec_wiki_line(j: Json) -> Seq<char> {
    "- "@ + spec_or(spec_get_str(j, "title"@), "?"@) + " (slug: "@ + spec_or(
        spec_get_str(j, "sub_url"@),
        "?"@,
    ) + ")"@
}

/// The lines of a wiki page listing.
pub open spec fn spec_wiki_lines(items: Seq<Json>) -> Seq<Seq<char>>
    decreases items.len(),
{
    if items.len() == 0 {
        Seq::empty()
    } else {
        spec_wiki_lines(items.subrange(0, items.len() - 1)).push(
            spec_wiki_line(items[items.len() - 1]),
        )
    }
}

/// What a successful wiki page listing renders.
pub open spec fn spec_wiki_pages_render(v: Json) -> Seq<char> {
    let items = match v {
        Json::Arr(i) => i@,
        _ => Seq::<Json>::empty(),
    };
    if items.len() == 0 {
        "No wiki pages found."@
    } else {
        spec_join(spec_wiki_lines(items), "\n"@)
    }
}

/// Render the wiki listing outcome. This is the one tolerated error: an
/// absent wiki manifests as a not-found response, which renders as "no
/// pages" rather than failing; every other error propagates unchanged.
pub fn wiki_list_render(outcome: Result<Json, GitxError>) -> (r: Result<String, GitxError>)
    ensures
        match outcome {
            Ok(v) => r matches Ok(t) && t@ == spec_wiki_pages_render(v),
            Err(e) => match e {
                GitxError::NotFound(_) => r matches Ok(t) && t@
                    == "No wiki pages found (wiki may be disabled for this repository)."@,
                _ => r == Err::<String, GitxError>(e),
            },
        },
{
    let val = match outcome {
        Ok(v) => v,
        Err(e) => {
            return match e {
                GitxError::NotFound(_) => Ok(
                    String::from_str(
                        "No wiki pages found (wiki may be disabled for this repository).",
                    ),
                ),
                other => Err(other),
            };
        },
    };
    let items: &Vec<Json> = match &val {
        Json::Arr(items) => items,
        _ => {
            return Ok(String::from_str("No wiki pages found."));
        },
    };
    if items.len() == 0 {
        return Ok(String::from_str("No wiki pages found."));
    }
    let mut lines: Vec<String> = Vec::new();
    let n = items.len();
    let mut i: usize = 0;
    while i < n
        invariant
            0 <= i <= n,
            n == items@.len(),
            lines.deep_view() == spec_wiki_lines(items@.subrange(0, i as int)),
        decreases n - i,
    {
        let j = &items[i];
        let mut line = String::from_str("- ");
        match j.get_str("title") {
            Some(s) => line.append(s.as_str()),
            None => line.append("?"),
        }
        line.append(" (slug: ");
        match j.get_str("sub_url") {
            Some(s) => line.append(s.as_str()),
            None => line.append("?"),
        }
        line.append(")");
        push_part(&mut lines, line);
        proof {
            let now = items@.subrange(0, i + 1);
            assert(now.subrange(0, now.len() - 1) =~= items@.subrange(0, i as int));
            assert(now[now.len() - 1] == items@[i as int]);
            assert(lines.deep_view() =~= spec_wiki_lines(now));
        }
        i += 1;
    }
    proof {
        assert(items@.subrange(0, items@.len() as int) =~= items@);
    }
    Ok(join(&lines, "\n"))
}

/// Plan the wiki page fetch.
pub fn wiki_get_plan(owner: &str, repo: &str, p: &WikiGetParams) -> (plan: RequestPlan)
    ensures
        plan.method == Method::Get,
        plan.path@ == "/repos/"@ + owner@ + "/"@ + repo@ + "/wiki/page/"@ + p.slug@,
        plan.query.deep_view() == Seq::<(Seq<char>, Seq<char>)>::empty(),
        plan.body is None,
{
    let path = repo_path_seg(owner, repo, "/wiki/page/", p.slug.as_str(), "");
    proof {
        reveal_strlit("");
        assert(path@ =~= "/repos/"@ + owner@ + "/"@ + repo@ + "/wiki/page/"@ + p.slug@);
    }
    RequestPlan { method: Method::Get, path, query: Vec::new(), body: None }
}

/// How a wiki page's base64 content renders: empty content is a
/// placeholder, undecodable content is a placeholder, anything else is
/// the decoded text.
pub open spec fn spec_wiki_content(content: Seq<char>) -> Seq<char> {
    if content.len() == 0 {
        "(empty page)"@
    } else {
        match b64_decode_of(spec_remove_newlines(content)) {
            Some(bytes) => match utf8_of(bytes) {
                Some(text) => text,
                None => "(failed to decode content)"@,
            },
            None => "(failed to decode content)"@,
        }
    }
}

/// What the wiki page fetch renders.
pub open spec fn spec_wiki_get_render(j: Json) -> Seq<char> {
    "## "@ + spec_or(spec_get_str(j, "title"@), "(untitled)"@) + "\n\n"@ + spec_wiki_content(
        spec_or(spec_get_str(j, "content_base64"@), Seq::empty()),
    )
}

/// Render a wiki page, decoding its base64 content best-effort.
pub fn wiki_get_render(val: &Json) -> (r: String)
    ensures
        r@ == spec_wiki_get_render(*val),
{
    let mut s = String::from_str("## ");
    match val.get_str("title") {
        Some(t) => s.append(t.as_str()),
        None => s.append("(untitled)"),
    }
    s.append("\n\n");
    let content: &str = match val.get_str("content_base64") {
        Some(c) => c.as_str(),
        None => "",
    };
    proof {
        reveal_strlit("");
        assert(""@ =~= Seq::<char>::empty());
    }
    if content.is_empty() {
        s.append("(empty page)");
        return s;
    }
    let clean = remove_newlines(content);
    match b64_decode(clean.as_str()) {
        Some(bytes) => match utf8_string(&bytes) {
            Some(text) => s.append(text.as_str()),
            None => s.append("(failed to decode content)"),
        },
        None => s.append("(failed to decode content)"),
    }
    s
}

/// The body a wiki page creation sends: the title and the base64 of the
/// content.
pub open spec fn spec_wiki_create_body(p: WikiCreateParams) -> JsonV {
    JsonV::Obj(
        seq![
            ("title"@, JsonV::Str(p.title@)),
            ("content_base64"@, JsonV::Str(b64_of(encode_utf8(p.content@)))),
        ],
    )
}

/// Plan the wiki page creation call. The length bound keeps the base64
/// encoder within addressable output.
pub fn wiki_create_plan(owner: &str, repo: &str, p: &WikiCreateParams) -> (plan: RequestPlan)
    requires
        (encode_utf8(p.content@).len() + 2) / 3 * 4 <= usize::MAX,
    ensures
        plan.method == Method::Post,
        plan.path@ == "/repos/"@ + owner@ + "/"@ + repo@ + "/wiki/new"@,
        plan.query.deep_view() == Seq::<(Seq<char>, Seq<char>)>::empty(),
        body_jv(plan) == Some(spec_wiki_create_body(*p)),
{
    let encoded = b64_encode(p.content.as_str().as_bytes());
    let mut fields: Vec<(String, Json)> = Vec::new();
    push_field(&mut fields, "title", Json::Str(p.title.clone()));
    push_field(&mut fields, "content_base64", Json::Str(encoded));
    let body = obj_body(fields);
    proof {
        assert(jv_obj_entries(jv(body)) =~~= jv_obj_entries(spec_wiki_create_body(*p)));
        assert(jv(body) == spec_wiki_create_body(*p));
    }
    RequestPlan {
        method: Method::Post,
        path: repo_path(owner, repo, "/wiki/new"),
        query: Vec::new(),
        body: Some(body),
    }
}

/// Render the wiki page creation confirmation.
pub fn wiki_create_render(p: &WikiCreateParams) -> (r: String)
    ensures
        r@ == "Wiki page created: "@ + p.title@,
{
    let mut s = String::from_str("Wiki page created: ");
    s.append(p.title.as_str());
    s
}

} // verus!
