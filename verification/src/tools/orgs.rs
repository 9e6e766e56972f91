use vstd::prelude::*;
use vstd::string::StringExecFns;

use crate::json::{spec_get_i64, spec_get_str, Json};
use crate::request::{Method, RequestPlan};
use crate::response::spec_or;
use crate::strutil::{i64_to_string, join, push_part, spec_i64_string, spec_join, str_eq};

verus! {

pub struct OrgListParams {}

pub struct OrgGetParams {
    /// Organization name.
    pub org: String,
}

pub struct OrgTeamsParams {
    /// Organization name.
    pub org: String,
}

/// Plan the listing of the authenticated user's organizations.
pub fn org_list_plan() -> (plan: RequestPlan)
    ensures
        plan.method == Method::Get,
        plan.path@ == "/user/orgs"@,
        plan.query.deep_view() == Seq::<(Seq<char>, Seq<char>)>::empty(),
        plan.body is None,
{
    RequestPlan {
        method: Method::Get,
        path: String::from_str("/user/orgs"),
        query: Vec::new(),
        body: None,
    }
}

/// One line of an organization listing: the full name is shown only when
/// it adds something over the name.
pub open spec fn spec_org_line(j: Json) -> Seq<char> {
    let name = spec_or(spec_get_str(j, "name"@), "?"@);
    let full_name = spec_or(spec_get_str(j, "full_name"@), Seq::empty());
    if full_name.len() == 0 || full_name == name {
        "- "@ + name
    } else {
        "- "@ + name + " ("@ + full_name + ")"@
    }
}

/// The lines of an organization listing.
pub open spec fn spec_org_lines(items: Seq<Json>) -> Seq<Seq<char>>
    decreases items.len(),
{
    if items.len() == 0 {
        Seq::empty()
    } else {
        spec_org_lines(items.subrange(0, items.len() - 1)).push(
            spec_org_line(items[items.len() - 1]),
        )
    }
}

/// What the organization listing renders for a response value.
pub open spec fn spec_org_list_render(v: Json) -> Seq<char> {
    let items = match v {
        Json::Arr(i) => i@,
        _ => Seq::<Json>::empty(),
    };
    if items.len() == 0 {
        "No organizations found."@
    } else {
        spec_join(spec_org_lines(items), "\n"@)
    }
}

/// Render the organization listing response.
pub fn org_list_render(val: &Json) -> (r: String)
    ensures
        r@ == spec_org_list_render(*val),
{
    let items: &Vec<Json> = match val {
        Json::Arr(items) => items,
        _ => {
            return String::from_str("No organizations found.");
        },
    };
    if items.len() == 0 {
        return String::from_str("No organizations found.");
    }
    let mut lines: Vec<String> = Vec::new();
    let n = items.len();
    let mut i: usize = 0;
    while i < n
        invariant
            0 <= i <= n,
            n == items@.len(),
            lines.deep_view() == spec_org_lines(items@.subrange(0, i as int)),
        decreases n - i,
    {
        let j = &items[i];
        let name: &str = match j.get_str("name") {
            Some(s) => s.as_str(),
            None => "?",
        };
        let full_name: &str = match j.get_str("full_name") {
            Some(s) => s.as_str(),
            None => "",
        };
        let mut line = String::from_str("- ");
        line.append(name);
        if !full_name.is_empty() && !str_eq(full_name, name) {
            line.append(" (");
            line.append(full_name);
            line.append(")");
        }
        proof {
            reveal_strlit("");
            assert(""@ =~= Seq::<char>::empty());
        }
        push_part(&mut lines, line);
        proof {
            let now = items@.subrange(0, i + 1);
            assert(now.subrange(0, now.len() - 1) =~= items@.subrange(0, i as int));
            assert(now[now.len() - 1] == items@[i as int]);
            assert(lines.deep_view() =~= spec_org_lines(now));
        }
        i += 1;
    }
    proof {
        assert(items@.subrange(0, items@.len() as int) =~= items@);
    }
    join(&lines, "\n")
}

/// Plan the single organization fetch.
pub fn org_get_plan(p: &OrgGetParams) -> (plan: RequestPlan)
    ensures
        plan.method == Method::Get,
        plan.path@ == "/orgs/"@ + p.org@,
        plan.query.deep_view() == Seq::<(Seq<char>, Seq<char>)>::empty(),
        plan.body is None,
{
    let mut path = String::from_str("/orgs/");
    path.append(p.org.as_str());
    RequestPlan { method: Method::Get, path, query: Vec::new(), body: None }
}

/// The display parts of an organization: a heading, then each descriptive
/// field that is present and non-empty; the full name only when it adds
/// something over the name.
pub open spec fn spec_org_parts(j: Json) -> Seq<Seq<char>> {
    let name = spec_or(spec_get_str(j, "name"@), "?"@);
    seq!["## "@ + name] + (match spec_get_str(j, "full_name"@) {
        Some(f) => if f.len() > 0 && f != name {
            seq!["**Full name:** "@ + f]
        } else {
            Seq::<Seq<char>>::empty()
        },
        None => Seq::<Seq<char>>::empty(),
    }) + (match spec_get_str(j, "description"@) {
        Some(d) => if d.len() > 0 {
            seq!["**Description:** "@ + d]
        } else {
            Seq::<Seq<char>>::empty()
        },
        None => Seq::<Seq<char>>::empty(),
    }) + (match spec_get_str(j, "location"@) {
        Some(l) => if l.len() > 0 {
            seq!["**Location:** "@ + l]
        } else {
            Seq::<Seq<char>>::empty()
        },
        None => Seq::<Seq<char>>::empty(),
    }) + (match spec_get_str(j, "website"@) {
        Some(w) => if w.len() > 0 {
            seq!["**Website:** "@ + w]
        } else {
            Seq::<Seq<char>>::empty()
        },
        None => Seq::<Seq<char>>::empty(),
    })
}

/// What the organization fetch renders.
pub open spec fn spec_org_get_render(j: Json) -> Seq<char> {
    spec_join(spec_org_parts(j), "\n"@)
}

/// Render the organization details.
pub fn org_get_render(val: &Json) -> (r: String)
    ensures
        r@ == spec_org_get_render(*val),
{
    let mut parts: Vec<String> = Vec::new();
    let name: &str = match val.get_str("name") {
        Some(s) => s.as_str(),
        None => "?",
    };
    let mut head = String::from_str("## ");
    head.append(name);
    push_part(&mut parts, head);
    match val.get_str("full_name") {
        Some(f) => {
            if !f.as_str().is_empty() && !str_eq(f.as_str(), name) {
                let mut line = String::from_str("**Full name:** ");
                line.append(f.as_str());
                push_part(&mut parts, line);
            }
        },
        None => {},
    }
    match val.get_str("description") {
        Some(d) => {
            if !d.as_str().is_empty() {
                let mut line = String::from_str("**Description:** ");
                line.append(d.as_str());
                push_part(&mut parts, line);
            }
        },
        None => {},
    }
    match val.get_str("location") {
        Some(l) => {
            if !l.as_str().is_empty() {
                let mut line = String::from_str("**Location:** ");
                line.append(l.as_str());
                push_part(&mut parts, line);
            }
        },
        None => {},
    }
    match val.get_str("website") {
        Some(w) => {
            if !w.as_str().is_empty() {
                let mut line = String::from_str("**Website:** ");
                line.append(w.as_str());
                push_part(&mut parts, line);
            }
        },
        None => {},
    }
    proof {
        assert(parts.deep_view() =~= spec_org_parts(*val));
    }
    join(&parts, "\n")
}

/// Plan the team listing for an organization.
pub fn org_teams_plan(p: &OrgTeamsParams) -> (plan: RequestPlan)
    ensures
        plan.method == Method::Get,
        plan.path@ == "/orgs/"@ + p.org@ + "/teams"@,
        plan.query.deep_view() == Seq::<(Seq<char>, Seq<char>)>::empty(),
        plan.body is None,
{
    let mut path = String::from_str("/orgs/");
    path.append(p.org.as_str());
    path.append("/teams");
    RequestPlan { method: Method::Get, path, query: Vec::new(), body: None }
}

/// One line of a team listing.
pub open spec fn spec_team_line(j: Json) -> Seq<char> {
    let name = spec_or(spec_get_str(j, "name"@), "?"@);
    let id: int = match spec_get_i64(j, "id"@) {
        Some(n) => n as int,
        None => 0,
    };
    let permission = spec_or(spec_get_str(j, "permission"@), "none"@);
    "- "@ + name + " (id: "@ + spec_i64_string(id) + ", permission: "@ + permission + ")"@
}

/// The lines of a team listing.
pub open spec fn spec_team_lines(items: Seq<Json>) -> Seq<Seq<char>>
    decreases items.len(),
{
    if items.len() == 0 {
        Seq::empty()
    } else {
        spec_team_lines(items.subrange(0, items.len() - 1)).push(
            spec_team_line(items[items.len() - 1]),
        )
    }
}

/// What the team listing renders for a response value.
pub open spec fn spec_org_teams_render(v: Json) -> Seq<char> {
    let items = match v {
        Json::Arr(i) => i@,
        _ => Seq::<Json>::empty(),
    };
    if items.len() == 0 {
        "No teams found."@
    } else {
        spec_join(spec_team_lines(items), "\n"@)
    }
}

/// Render the team listing response.
pub fn org_teams_render(val: &Json) -> (r: String)
    ensures
        r@ == spec_org_teams_render(*val),
{
    let items: &Vec<Json> = match val {
        Json::Arr(items) => items,
        _ => {
            return String::from_str("No teams found.");
        },
    };
    if items.len() == 0 {
        return String::from_str("No teams found.");
    }
    let mut lines: Vec<String> = Vec::new();
    let n = items.len();
    let mut i: usize = 0;
    while i < n
        invariant
            0 <= i <= n,
            n == items@.len(),
            lines.deep_view() == spec_team_lines(items@.subrange(0, i as int)),
        decreases n - i,
    {
        let j = &items[i];
        let mut line = String::from_str("- ");
        match j.get_str("name") {
            Some(s) => line.append(s.as_str()),
            None => line.append("?"),
        }
        line.append(" (id: ");
        let id = match j.get_i64("id") {
            Some(x) => x,
            None => 0,
        };
        let num = i64_to_string(id);
        line.append(num.as_str());
        line.append(", permission: ");
        match j.get_str("permission") {
            Some(s) => line.append(s.as_str()),
            None => line.append("none"),
        }
        line.append(")");
        push_part(&mut lines, line);
        proof {
            let now = items@.subrange(0, i + 1);
            assert(now.subrange(0, now.len() - 1) =~= items@.subrange(0, i as int));
            assert(now[now.len() - 1] == items@[i as int]);
            assert(lines.deep_view() =~= spec_team_lines(now));
        }
        i += 1;
    }
    proof {
        assert(items@.subrange(0, items@.len() as int) =~= items@);
    }
    join(&lines, "\n")
}

} // verus!
