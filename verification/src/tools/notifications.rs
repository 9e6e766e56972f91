use vstd::prelude::*;
use vstd::string::StringExecFns;

use crate::json::{spec_get2_str, spec_get_bool, spec_get_i64, Json};
use crate::platform::Platform;
use crate::request::{
    body_jv, jv, jv_obj_entries, obj_body, push_query, JsonV, Method, RequestPlan,
};
use crate::response::spec_or;
use crate::strutil::{i64_to_string, join, push_part, spec_i64_string, spec_join, str_eq};
use crate::types::common::{limit_value, page_value, spec_limit_value, spec_page_value};

verus! {

pub struct NotificationListParams {
    /// Filter by status: unread, read, or all. Defaults to unread.
    pub status: Option<String>,
    /// Page number (1-based). Defaults to 1.
    pub page: Option<i64>,
    /// Items per page (max 50). Defaults to 20.
    pub limit: Option<i64>,
}

pub struct NotificationMarkReadParams {
    /// Specific notification ID to mark as read. If omitted, marks all as read.
    pub id: Option<i64>,
}

/// The status-filter parameters a notification listing sends: Gitea takes
/// the status verbatim under its own key; GitHub widens to all entries for
/// `all` and `read`, switches to participation for `participating`, and
/// sends nothing for its default.
pub open spec fn spec_notification_status_query(platform: Platform, status: Seq<char>) -> Seq<
    (Seq<char>, Seq<char>),
> {
    match platform {
        Platform::Gitea => seq![("status-types"@, status)],
        Platform::GitHub => {
            if status == "all"@ || status == "read"@ {
                seq![("all"@, "true"@)]
            } else if status == "participating"@ {
                seq![("participating"@, "true"@)]
            } else {
                Seq::<(Seq<char>, Seq<char>)>::empty()
            }
        },
    }
}

/// The full query of a notification listing: the optional status filter,
/// the page, and the page size under each platform's parameter name.
pub open spec fn spec_notification_list_query(platform: Platform, p: NotificationListParams) -> Seq<
    (Seq<char>, Seq<char>),
> {
    (match p.status {
        Some(s) => spec_notification_status_query(platform, s@),
        None => Seq::<(Seq<char>, Seq<char>)>::empty(),
    }) + seq![("page"@, spec_i64_string(spec_page_value(p.page)))] + (match platform {
        Platform::Gitea => seq![("limit"@, spec_i64_string(spec_limit_value(p.limit)))],
        Platform::GitHub => seq![("per_page"@, spec_i64_string(spec_limit_value(p.limit)))],
    })
}

/// Plan the notification listing call; notifications are not
/// repository-scoped.
pub fn notification_list_plan(platform: Platform, p: &NotificationListParams) -> (plan: RequestPlan)
    ensures
        plan.method == Method::Get,
        plan.path@ == "/notifications"@,
        plan.query.deep_view() == spec_notification_list_query(platform, *p),
        plan.body is None,
{
    let mut q: Vec<(String, String)> = Vec::new();
    if let Some(status) = &p.status {
        match platform {
            Platform::Gitea => {
                push_query(&mut q, "status-types", status.clone());
            },
            Platform::GitHub => {
                if str_eq(status.as_str(), "all") || str_eq(status.as_str(), "read") {
                    push_query(&mut q, "all", String::from_str("true"));
                } else if str_eq(status.as_str(), "participating") {
                    push_query(&mut q, "participating", String::from_str("true"));
                }
            },
        }
    }
    push_query(&mut q, "page", i64_to_string(page_value(&p.page)));
    match platform {
        Platform::Gitea => push_query(&mut q, "limit", i64_to_string(limit_value(&p.limit))),
        Platform::GitHub => push_query(&mut q, "per_page", i64_to_string(limit_value(&p.limit))),
    }
    proof {
        assert(q.deep_view() =~= spec_notification_list_query(platform, *p));
    }
    RequestPlan {
        method: Method::Get,
        path: String::from_str("/notifications"),
        query: q,
        body: None,
    }
}

/// One line of a notification listing.
pub open spec fn spec_notification_line(j: Json) -> Seq<char> {
    let id: int = match spec_get_i64(j, "id"@) {
        Some(n) => n as int,
        None => 0,
    };
    let subject_title = spec_or(spec_get2_str(j, "subject"@, "title"@), "(no title)"@);
    let subject_type = spec_or(spec_get2_str(j, "subject"@, "type"@), "unknown"@);
    let repo_name = spec_or(spec_get2_str(j, "repository"@, "full_name"@), "unknown"@);
    let unread = match spec_get_bool(j, "unread"@) {
        Some(b) => b,
        None => false,
    };
    "- ["@ + (if unread {
        "unread"@
    } else {
        "read"@
    }) + "] #"@ + spec_i64_string(id) + " "@ + subject_type + ": "@ + subject_title + " ("@
        + repo_name + ")"@
}

/// The lines of a notification listing.
pub open spec fn spec_notification_lines(items: Seq<Json>) -> Seq<Seq<char>>
    decreases items.len(),
{
    if items.len() == 0 {
        Seq::empty()
    } else {
        spec_notification_lines(items.subrange(0, items.len() - 1)).push(
            spec_notification_line(items[items.len() - 1]),
        )
    }
}

/// What the notification listing renders for a response value.
pub open spec fn spec_notification_list_render(v: Json) -> Seq<char> {
    let items = match v {
        Json::Arr(i) => i@,
        _ => Seq::<Json>::empty(),
    };
    if items.len() == 0 {
        "No notifications found."@
    } else {
        spec_join(spec_notification_lines(items), "\n"@)
    }
}

/// Render the notification listing response.
pub fn notification_list_render(val: &Json) -> (r: String)
    ensures
        r@ == spec_notification_list_render(*val),
{
    let items: &Vec<Json> = match val {
        Json::Arr(items) => items,
        _ => {
            return String::from_str("No notifications found.");
        },
    };
    if items.len() == 0 {
        return String::from_str("No notifications found.");
    }
    let mut lines: Vec<String> = Vec::new();
    let n = items.len();
    let mut i: usize = 0;
    while i < n
        invariant
            0 <= i <= n,
            n == items@.len(),
            lines.deep_view() == spec_notification_lines(items@.subrange(0, i as int)),
        decreases n - i,
    {
        let j = &items[i];
        let unread = match j.get_bool("unread") {
            Some(b) => b,
            None => false,
        };
        let mut line = String::from_str("- [");
        if unread {
            line.append("unread");
        } else {
            line.append("read");
        }
        line.append("] #");
        let id = match j.get_i64("id") {
            Some(x) => x,
            None => 0,
        };
        let num = i64_to_string(id);
        line.append(num.as_str());
        line.append(" ");
        match j.get2_str("subject", "type") {
            Some(s) => line.append(s.as_str()),
            None => line.append("unknown"),
        }
        line.append(": ");
        match j.get2_str("subject", "title") {
            Some(s) => line.append(s.as_str()),
            None => line.append("(no title)"),
        }
        line.append(" (");
        match j.get2_str("repository", "full_name") {
            Some(s) => line.append(s.as_str()),
            None => line.append("unknown"),
        }
        line.append(")");
        push_part(&mut lines, line);
        proof {
            let now = items@.subrange(0, i + 1);
            assert(now.subrange(0, now.len() - 1) =~= items@.subrange(0, i as int));
            assert(now[now.len() - 1] == items@[i as int]);
            assert(lines.deep_view() =~= spec_notification_lines(now));
        }
        i += 1;
    }
    proof {
        assert(items@.subrange(0, items@.len() as int) =~= items@);
    }
    join(&lines, "\n")
}

/// Plan the mark-as-read call: one thread by ID, or every notification.
/// Both send an empty object body.
pub fn notification_mark_read_plan(p: &NotificationMarkReadParams) -> (plan: RequestPlan)
    ensures
        body_jv(plan) == Some(JsonV::Obj(Seq::empty())),
        plan.query.deep_view() == Seq::<(Seq<char>, Seq<char>)>::empty(),
        match p.id {
            Some(id) => plan.method == Method::Patch && plan.path@ == "/notifications/threads/"@
                + spec_i64_string(id as int),
            None => plan.method == Method::Put && plan.path@ == "/notifications"@,
        },
{
    let fields: Vec<(String, Json)> = Vec::new();
    let body = obj_body(fields);
    proof {
        assert(jv_obj_entries(jv(body)) =~~= Seq::<(Seq<char>, JsonV)>::empty());
        assert(jv(body) == JsonV::Obj(Seq::<(Seq<char>, JsonV)>::empty()));
    }
    match &p.id {
        Some(id) => {
            let mut path = String::from_str("/notifications/threads/");
            let num = i64_to_string(*id);
            path.append(num.as_str());
            RequestPlan { method: Method::Patch, path, query: Vec::new(), body: Some(body) }
        },
        None => RequestPlan {
            method: Method::Put,
            path: String::from_str("/notifications"),
            query: Vec::new(),
            body: Some(body),
        },
    }
}

/// What the mark-as-read call reports, by scope.
pub open spec fn spec_mark_read_text(p: NotificationMarkReadParams) -> Seq<char> {
    match p.id {
        Some(id) => "Notification #"@ + spec_i64_string(id as int) + " marked as read."@,
        None => "All notifications marked as read."@,
    }
}

/// Render the mark-as-read confirmation.
pub fn notification_mark_read_render(p: &NotificationMarkReadParams) -> (r: String)
    ensures
        r@ == spec_mark_read_text(*p),
{
    match &p.id {
        Some(id) => {
            let mut s = String::from_str("Notification #");
            let num = i64_to_string(*id);
            s.append(num.as_str());
            s.append(" marked as read.");
            s
        },
        None => String::from_str("All notifications marked as read."),
    }
}

} // verus!
