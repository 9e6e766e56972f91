use vstd::prelude::*;
use vstd::string::StringExecFns;

use crate::json::{spec_get_bool, spec_get_str, Json};
use crate::request::{Method, RequestPlan};
use crate::response::spec_or;
use crate::strutil::{join, push_part, spec_join};

verus! {

pub struct UserGetMeParams {}

pub struct UserGetParams {
    /// Username to look up.
    pub username: String,
}

/// Plan the authenticated-user fetch.
pub fn user_get_me_plan() -> (plan: RequestPlan)
    ensures
        plan.method == Method::Get,
        plan.path@ == "/user"@,
        plan.query.deep_view() == Seq::<(Seq<char>, Seq<char>)>::empty(),
        plan.body is None,
{
    RequestPlan {
        method: Method::Get,
        path: String::from_str("/user"),
        query: Vec::new(),
        body: None,
    }
}

/// The display parts of the authenticated user: username, then full name
/// and email when non-empty, then an admin mark when set.
pub open spec fn spec_user_me_parts(j: Json) -> Seq<Seq<char>> {
    seq!["**Username:** "@ + spec_or(spec_get_str(j, "login"@), "unknown"@)] + (match spec_get_str(
        j,
        "full_name"@,
    ) {
        Some(f) => if f.len() > 0 {
            seq!["**Full name:** "@ + f]
        } else {
            Seq::<Seq<char>>::empty()
        },
        None => Seq::<Seq<char>>::empty(),
    }) + (match spec_get_str(j, "email"@) {
        Some(e) => if e.len() > 0 {
            seq!["**Email:** "@ + e]
        } else {
            Seq::<Seq<char>>::empty()
        },
        None => Seq::<Seq<char>>::empty(),
    }) + (if spec_get_bool(j, "is_admin"@) == Some(true) {
        seq!["**Role:** admin"@]
    } else {
        Seq::<Seq<char>>::empty()
    })
}

/// What the authenticated-user fetch renders.
pub open spec fn spec_user_me_render(j: Json) -> Seq<char> {
    spec_join(spec_user_me_parts(j), "\n"@)
}

/// Render the authenticated user's details.
pub fn user_get_me_render(val: &Json) -> (r: String)
    ensures
        r@ == spec_user_me_render(*val),
{
    let mut parts: Vec<String> = Vec::new();
    let mut head = String::from_str("**Username:** ");
    match val.get_str("login") {
        Some(s) => head.append(s.as_str()),
        None => head.append("unknown"),
    }
    push_part(&mut parts, head);
    match val.get_str("full_name") {
        Some(f) => {
            if !f.as_str().is_empty() {
                let mut line = String::from_str("**Full name:** ");
                line.append(f.as_str());
                push_part(&mut parts, line);
            }
        },
        None => {},
    }
    match val.get_str("email") {
        Some(e) => {
            if !e.as_str().is_empty() {
                let mut line = String::from_str("**Email:** ");
                line.append(e.as_str());
                push_part(&mut parts, line);
            }
        },
        None => {},
    }
    let admin = match val.get_bool("is_admin") {
        Some(b) => b,
        None => false,
    };
    if admin {
        push_part(&mut parts, String::from_str("**Role:** admin"));
    }
    proof {
        assert(parts.deep_view() =~= spec_user_me_parts(*val));
    }
    join(&parts, "\n")
}

/// Plan the public user profile fetch.
pub fn user_get_plan(p: &UserGetParams) -> (plan: RequestPlan)
    ensures
        plan.method == Method::Get,
        plan.path@ == "/users/"@ + p.username@,
        plan.query.deep_view() == Seq::<(Seq<char>, Seq<char>)>::empty(),
        plan.body is None,
{
    let mut path = String::from_str("/users/");
    path.append(p.username.as_str());
    RequestPlan { method: Method::Get, path, query: Vec::new(), body: None }
}

/// The display parts of a public user profile.
pub open spec fn spec_user_parts(j: Json) -> Seq<Seq<char>> {
    seq!["**Username:** "@ + spec_or(spec_get_str(j, "login"@), "unknown"@)] + (match spec_get_str(
        j,
        "full_name"@,
    ) {
        Some(f) => if f.len() > 0 {
            seq!["**Full name:** "@ + f]
        } else {
            Seq::<Seq<char>>::empty()
        },
        None => Seq::<Seq<char>>::empty(),
    }) + (match spec_get_str(j, "created"@) {
        Some(c) => seq!["**Created:** "@ + c],
        None => Seq::<Seq<char>>::empty(),
    })
}

/// What the public user profile fetch renders.
pub open spec fn spec_user_render(j: Json) -> Seq<char> {
    spec_join(spec_user_parts(j), "\n"@)
}

/// Render a public user profile.
pub fn user_get_render(val: &Json) -> (r: String)
    ensures
        r@ == spec_user_render(*val),
{
    let mut parts: Vec<String> = Vec::new();
    let mut head = String::from_str("**Username:** ");
    match val.get_str("login") {
        Some(s) => head.append(s.as_str()),
        None => head.append("unknown"),
    }
    push_part(&mut parts, head);
    match val.get_str("full_name") {
        Some(f) => {
            if !f.as_str().is_empty() {
                let mut line = String::from_str("**Full name:** ");
                line.append(f.as_str());
                push_part(&mut parts, line);
            }
        },
        None => {},
    }
    match val.get_str("created") {
        Some(c) => {
            let mut line = String::from_str("**Created:** ");
            line.append(c.as_str());
            push_part(&mut parts, line);
        },
        None => {},
    }
    proof {
        assert(parts.deep_view() =~= spec_user_parts(*val));
    }
    join(&parts, "\n")
}

} // verus!
