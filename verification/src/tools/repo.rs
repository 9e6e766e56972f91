use vstd::prelude::*;
use vstd::string::StringExecFns;

use crate::json::{spec_get_arr, spec_get_bool, spec_get_i64, spec_get_str, Json};
use crate::request::{push_query, repo_path, Method, RequestPlan};
use crate::response::spec_or;
use crate::strutil::{i64_to_string, join, push_part, spec_i64_string, spec_join};
use crate::types::common::{limit_value, page_value, spec_limit_value, spec_page_value};

verus! {

pub struct RepoGetParams {
    /// Repository owner. Optional if `directory` is provided.
    pub owner: Option<String>,
    /// Repository name. Optional if `directory` is provided.
    pub repo: Option<String>,
    /// Local directory to auto-detect owner/repo from.
    pub directory: Option<String>,
}

pub struct RepoSearchParams {
    /// Search keyword.
    pub q: String,
    /// Page number (1-based). Defaults to 1.
    pub page: Option<i64>,
    /// Items per page (max 50). Defaults to 20.
    pub limit: Option<i64>,
}

/// Plan the repository metadata fetch.
pub fn repo_get_plan(owner: &str, repo: &str) -> (plan: RequestPlan)
    ensures
        plan.method == Method::Get,
        plan.path@ == "/repos/"@ + owner@ + "/"@ + repo@,
        plan.query.deep_view() == Seq::<(Seq<char>, Seq<char>)>::empty(),
        plan.body is None,
{
    let path = repo_path(owner, repo, "");
    proof {
        reveal_strlit("");
        assert(path@ =~= "/repos/"@ + owner@ + "/"@ + repo@);
    }
    RequestPlan { method: Method::Get, path, query: Vec::new(), body: None }
}

/// The display parts of repository metadata: heading, optional
/// description, default branch, star and fork counts, visibility, and
/// optional primary language.
pub open spec fn spec_repo_parts(j: Json) -> Seq<Seq<char>> {
    seq!["## "@ + spec_or(spec_get_str(j, "full_name"@), "unknown"@)] + (match spec_get_str(
        j,
        "description"@,
    ) {
        Some(d) => if d.len() > 0 {
            seq!["**Description:** "@ + d]
        } else {
            Seq::<Seq<char>>::empty()
        },
        None => Seq::<Seq<char>>::empty(),
    }) + (match spec_get_str(j, "default_branch"@) {
        Some(b) => seq!["**Default branch:** "@ + b],
        None => Seq::<Seq<char>>::empty(),
    }) + seq![
        "**Stars:** "@ + spec_i64_string(
            match spec_get_i64(j, "stars_count"@) {
                Some(n) => n as int,
                None => 0,
            },
        ) + " | **Forks:** "@ + spec_i64_string(
            match spec_get_i64(j, "forks_count"@) {
                Some(n) => n as int,
                None => 0,
            },
        ),
        "**Visibility:** "@ + (if spec_get_bool(j, "private"@) == Some(true) {
            "private"@
        } else {
            "public"@
        }),
    ] + (match spec_get_str(j, "language"@) {
        Some(l) => if l.len() > 0 {
            seq!["**Language:** "@ + l]
        } else {
            Seq::<Seq<char>>::empty()
        },
        None => Seq::<Seq<char>>::empty(),
    })
}

/// What the repository metadata fetch renders.
pub open spec fn spec_repo_get_render(j: Json) -> Seq<char> {
    spec_join(spec_repo_parts(j), "\n"@)
}

/// Render the repository metadata.
pub fn repo_get_render(val: &Json) -> (r: String)
    ensures
        r@ == spec_repo_get_render(*val),
{
    let mut parts: Vec<String> = Vec::new();
    let mut head = String::from_str("## ");
    match val.get_str("full_name") {
        Some(s) => head.append(s.as_str()),
        None => head.append("unknown"),
    }
    push_part(&mut parts, head);
    match val.get_str("description") {
        Some(d) => {
            if !d.as_str().is_empty() {
                let mut line = String::from_str("**Description:** ");
                line.append(d.as_str());
                push_part(&mut parts, line);
            }
        },
        None => {},
    }
    match val.get_str("default_branch") {
        Some(b) => {
            let mut line = String::from_str("**Default branch:** ");
            line.append(b.as_str());
            push_part(&mut parts, line);
        },
        None => {},
    }
    let stars = match val.get_i64("stars_count") {
        Some(n) => n,
        None => 0,
    };
    let forks = match val.get_i64("forks_count") {
        Some(n) => n,
        None => 0,
    };
    let mut counts = String::from_str("**Stars:** ");
    let num = i64_to_string(stars);
    counts.append(num.as_str());
    counts.append(" | **Forks:** ");
    let num2 = i64_to_string(forks);
    counts.append(num2.as_str());
    push_part(&mut parts, counts);
    let private = match val.get_bool("private") {
        Some(b) => b,
        None => false,
    };
    let mut vis = String::from_str("**Visibility:** ");
    if private {
        vis.append("private");
    } else {
        vis.append("public");
    }
    push_part(&mut parts, vis);
    match val.get_str("language") {
        Some(l) => {
            if !l.as_str().is_empty() {
                let mut line = String::from_str("**Language:** ");
                line.append(l.as_str());
                push_part(&mut parts, line);
            }
        },
        None => {},
    }
    proof {
        assert(parts.deep_view() =~= spec_repo_parts(*val));
    }
    join(&parts, "\n")
}

/// Plan the repository search call.
pub fn repo_search_plan(p: &RepoSearchParams) -> (plan: RequestPlan)
    ensures
        plan.method == Method::Get,
        plan.path@ == "/repos/search"@,
        plan.query.deep_view() == seq![
            ("q"@, p.q@),
            ("page"@, spec_i64_string(spec_page_value(p.page))),
            ("limit"@, spec_i64_string(spec_limit_value(p.limit))),
        ],
        plan.body is None,
{
    let mut q: Vec<(String, String)> = Vec::new();
    push_query(&mut q, "q", p.q.clone());
    push_query(&mut q, "page", i64_to_string(page_value(&p.page)));
    push_query(&mut q, "limit", i64_to_string(limit_value(&p.limit)));
    proof {
        assert(q.deep_view() =~= seq![
            ("q"@, p.q@),
            ("page"@, spec_i64_string(spec_page_value(p.page))),
            ("limit"@, spec_i64_string(spec_limit_value(p.limit))),
        ]);
    }
    RequestPlan {
        method: Method::Get,
        path: String::from_str("/repos/search"),
        query: q,
        body: None,
    }
}

/// One line of a search result listing; a non-empty description is
/// appended.
pub open spec fn spec_search_line(j: Json) -> Seq<char> {
    let full_name = spec_or(spec_get_str(j, "full_name"@), "?"@);
    let desc = spec_or(spec_get_str(j, "description"@), Seq::empty());
    let stars: int = match spec_get_i64(j, "stars_count"@) {
        Some(n) => n as int,
        None => 0,
    };
    let head = "- "@ + full_name + " ("@ + spec_i64_string(stars) + " stars)"@;
    if desc.len() == 0 {
        head
    } else {
        head + " - "@ + desc
    }
}

/// The lines of a search result listing.
pub open spec fn spec_search_lines(items: Seq<Json>) -> Seq<Seq<char>>
    decreases items.len(),
{
    if items.len() == 0 {
        Seq::empty()
    } else {
        spec_search_lines(items.subrange(0, items.len() - 1)).push(
            spec_search_line(items[items.len() - 1]),
        )
    }
}

/// What the search renders: results live under the response's `data` key.
pub open spec fn spec_repo_search_render(v: Json) -> Seq<char> {
    let items = match spec_get_arr(v, "data"@) {
        Some(i) => i,
        None => Seq::<Json>::empty(),
    };
    if items.len() == 0 {
        "No repositories found."@
    } else {
        spec_join(spec_search_lines(items), "\n"@)
    }
}

/// Render the repository search response.
pub fn repo_search_render(val: &Json) -> (r: String)
    ensures
        r@ == spec_repo_search_render(*val),
{
    let items: &Vec<Json> = match val.get_arr("data") {
        Some(items) => items,
        None => {
            return String::from_str("No repositories found.");
        },
    };
    if items.len() == 0 {
        return String::from_str("No repositories found.");
    }
    let mut lines: Vec<String> = Vec::new();
    let n = items.len();
    let mut i: usize = 0;
    while i < n
        invariant
            0 <= i <= n,
            n == items@.len(),
            lines.deep_view() == spec_search_lines(items@.subrange(0, i as int)),
        decreases n - i,
    {
        let j = &items[i];
        let mut line = String::from_str("- ");
        match j.get_str("full_name") {
            Some(s) => line.append(s.as_str()),
            None => line.append("?"),
        }
        line.append(" (");
        let stars = match j.get_i64("stars_count") {
            Some(x) => x,
            None => 0,
        };
        let num = i64_to_string(stars);
        line.append(num.as_str());
        line.append(" stars)");
        match j.get_str("description") {
            Some(d) => {
                if !d.as_str().is_empty() {
                    line.append(" - ");
                    line.append(d.as_str());
                }
            },
            None => {},
        }
        push_part(&mut lines, line);
        proof {
            let now = items@.subrange(0, i + 1);
            assert(now.subrange(0, now.len() - 1) =~= items@.subrange(0, i as int));
            assert(now[now.len() - 1] == items@[i as int]);
            assert(lines.deep_view() =~= spec_search_lines(now));
        }
        i += 1;
    }
    proof {
        assert(items@.subrange(0, items@.len() as int) =~= items@);
    }
    join(&lines, "\n")
}

} // verus!
