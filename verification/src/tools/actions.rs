use vstd::prelude::*;
use vstd::string::StringExecFns;

use crate::error::GitxError;
use crate::json::{spec_get2_str, spec_get_arr, spec_get_i64, spec_get_str, Json};
use crate::platform::Platform;
use crate::request::{
    push_query, repo_idx_path, repo_path, repo_path_idx, repo_path_seg, Method, RequestPlan,
};
use crate::response::{push_nonempty_line, push_opt_line, spec_or};
use crate::strutil::{
    before_char, i64_to_string, join, push_part, spec_before_char, spec_i64_string, spec_join,
};
use crate::types::common::{limit_value, page_value, spec_limit_value, spec_page_value};

verus! {

pub struct ActionsWorkflowListParams {
    /// Repository owner. Optional if `directory` is provided.
    pub owner: Option<String>,
    /// Repository name. Optional if `directory` is provided.
    pub repo: Option<String>,
    /// Local directory to auto-detect owner/repo from.
    pub directory: Option<String>,
}

pub struct ActionsRunListParams {
    /// Repository owner. Optional if `directory` is provided.
    pub owner: Option<String>,
    /// Repository name. Optional if `directory` is provided.
    pub repo: Option<String>,
    /// Local directory to auto-detect owner/repo from.
    pub directory: Option<String>,
    /// Page number (1-based). Defaults to 1.
    pub page: Option<i64>,
    /// Items per page (max 50). Defaults to 20.
    pub limit: Option<i64>,
}

pub struct ActionsRunGetParams {
    /// Repository owner. Optional if `directory` is provided.
    pub owner: Option<String>,
    /// Repository name. Optional if `directory` is provided.
    pub repo: Option<String>,
    /// Local directory to auto-detect owner/repo from.
    pub directory: Option<String>,
    /// Workflow run ID.
    pub run_id: i64,
}

pub struct ActionsJobLogsParams {
    /// Repository owner. Optional if `directory` is provided.
    pub owner: Option<String>,
    /// Repository name. Optional if `directory` is provided.
    pub repo: Option<String>,
    /// Local directory to auto-detect owner/repo from.
    pub directory: Option<String>,
    /// Job ID (from the workflow run details).
    pub job_id: i64,
}

/// Plan the first workflow listing call: GitHub has a native workflows
/// API; Gitea is asked for its action tasks, with file listings as
/// fallbacks.
pub fn workflow_list_plan(platform: Platform, owner: &str, repo: &str) -> (plan: RequestPlan)
    ensures
        plan.method == Method::Get,
        plan.query.deep_view() == Seq::<(Seq<char>, Seq<char>)>::empty(),
        plan.body is None,
        match platform {
            Platform::GitHub => plan.path@ == "/repos/"@ + owner@ + "/"@ + repo@
                + "/actions/workflows"@,
            Platform::Gitea => plan.path@ == "/repos/"@ + owner@ + "/"@ + repo@
                + "/actions/tasks"@,
        },
{
    match platform {
        Platform::GitHub => RequestPlan {
            method: Method::Get,
            path: repo_path(owner, repo, "/actions/workflows"),
            query: Vec::new(),
            body: None,
        },
        Platform::Gitea => RequestPlan {
            method: Method::Get,
            path: repo_path(owner, repo, "/actions/tasks"),
            query: Vec::new(),
            body: None,
        },
    }
}

/// One line of the GitHub workflow listing.
pub open spec fn spec_gh_workflow_line(j: Json) -> Seq<char> {
    "- "@ + spec_or(spec_get_str(j, "name"@), "?"@) + " ("@ + spec_or(
        spec_get_str(j, "state"@),
        "unknown"@,
    ) + ") ["@ + spec_or(spec_get_str(j, "path"@), Seq::empty()) + "]"@
}

/// The lines of the GitHub workflow listing.
pub open spec fn spec_gh_workflow_lines(items: Seq<Json>) -> Seq<Seq<char>>
    decreases items.len(),
{
    if items.len() == 0 {
        Seq::empty()
    } else {
        spec_gh_workflow_lines(items.subrange(0, items.len() - 1)).push(
            spec_gh_workflow_line(items[items.len() - 1]),
        )
    }
}

/// What the GitHub workflow listing renders: workflows live under the
/// response's `workflows` key.
pub open spec fn spec_gh_workflow_render(v: Json) -> Seq<char> {
    let items = match spec_get_arr(v, "workflows"@) {
        Some(i) => i,
        None => Seq::<Json>::empty(),
    };
    if items.len() == 0 {
        "No workflows found."@
    } else {
        spec_join(spec_gh_workflow_lines(items), "\n"@)
    }
}

/// Render the GitHub workflow listing response.
pub fn github_workflow_list_render(val: &Json) -> (r: String)
    ensures
        r@ == spec_gh_workflow_render(*val),
{
    let items: &Vec<Json> = match val.get_arr("workflows") {
        Some(items) => items,
        None => {
            return String::from_str("No workflows found.");
        },
    };
    if items.len() == 0 {
        return String::from_str("No workflows found.");
    }
    let mut lines: Vec<String> = Vec::new();
    let n = items.len();
    let mut i: usize = 0;
    while i < n
        invariant
            0 <= i <= n,
            n == items@.len(),
            lines.deep_view() == spec_gh_workflow_lines(items@.subrange(0, i as int)),
        decreases n - i,
    {
        let j = &items[i];
        let mut line = String::from_str("- ");
        match j.get_str("name") {
            Some(s) => line.append(s.as_str()),
            None => line.append("?"),
        }
        line.append(" (");
        match j.get_str("state") {
            Some(s) => line.append(s.as_str()),
            None => line.append("unknown"),
        }
        line.append(") [");
        match j.get_str("path") {
            Some(s) => line.append(s.as_str()),
            None => {},
        }
        line.append("]");
        push_part(&mut lines, line);
        proof {
            let now = items@.subrange(0, i + 1);
            assert(now.subrange(0, now.len() - 1) =~= items@.subrange(0, i as int));
            assert(now[now.len() - 1] == items@[i as int]);
            assert(lines.deep_view() =~= spec_gh_workflow_lines(now));
        }
        i += 1;
    }
    proof {
        assert(items@.subrange(0, items@.len() as int) =~= items@);
    }
    join(&lines, "\n")
}

/// One line of the Gitea action task listing.
pub open spec fn spec_gitea_task_line(j: Json) -> Seq<char> {
    "- "@ + spec_or(spec_get_str(j, "name"@), "?"@) + " ("@ + spec_or(
        spec_get_str(j, "status"@),
        "unknown"@,
    ) + ")"@
}

/// The lines of the Gitea action task listing.
pub open spec fn spec_gitea_task_lines(items: Seq<Json>) -> Seq<Seq<char>>
    decreases items.len(),
{
    if items.len() == 0 {
        Seq::empty()
    } else {
        spec_gitea_task_lines(items.subrange(0, items.len() - 1)).push(
            spec_gitea_task_line(items[items.len() - 1]),
        )
    }
}

/// The runs a Gitea task response carries; any error counts as none.
pub open spec fn spec_gitea_task_runs(outcome: Result<Json, GitxError>) -> Seq<Json> {
    match outcome {
        Ok(v) => match spec_get_arr(v, "workflow_runs"@) {
            Some(i) => i,
            None => Seq::<Json>::empty(),
        },
        Err(_) => Seq::<Json>::empty(),
    }
}

/// Decide the Gitea task listing step: text when the response carried
/// runs, nothing when the fallback file listings must be consulted.
pub fn gitea_tasks_decide(outcome: &Result<Json, GitxError>) -> (r: Option<String>)
    ensures
        match r {
            Some(t) => spec_gitea_task_runs(*outcome).len() > 0 && t@ == spec_join(
                spec_gitea_task_lines(spec_gitea_task_runs(*outcome)),
                "\n"@,
            ),
            None => spec_gitea_task_runs(*outcome).len() == 0,
        },
{
    let val = match outcome {
        Ok(v) => v,
        Err(_) => {
            return None;
        },
    };
    let items: &Vec<Json> = match val.get_arr("workflow_runs") {
        Some(items) => items,
        None => {
            return None;
        },
    };
    if items.len() == 0 {
        return None;
    }
    let mut lines: Vec<String> = Vec::new();
    let n = items.len();
    let mut i: usize = 0;
    while i < n
        invariant
            0 <= i <= n,
            n == items@.len(),
            lines.deep_view() == spec_gitea_task_lines(items@.subrange(0, i as int)),
        decreases n - i,
    {
        let j = &items[i];
        let mut line = String::from_str("- ");
        match j.get_str("name") {
            Some(s) => line.append(s.as_str()),
            None => line.append("?"),
        }
        line.append(" (");
        match j.get_str("status") {
            Some(s) => line.append(s.as_str()),
            None => line.append("unknown"),
        }
        line.append(")");
        push_part(&mut lines, line);
        proof {
            let now = items@.subrange(0, i + 1);
            assert(now.subrange(0, now.len() - 1) =~= items@.subrange(0, i as int));
            assert(now[now.len() - 1] == items@[i as int]);
            assert(lines.deep_view() =~= spec_gitea_task_lines(now));
        }
        i += 1;
    }
    proof {
        assert(items@.subrange(0, items@.len() as int) =~= items@);
    }
    Some(join(&lines, "\n"))
}

/// Plan a workflow file listing under `{dir}/workflows`; the Gitea
/// fallbacks consult `.gitea` and then `.github`.
pub fn workflow_files_plan(owner: &str, repo: &str, dir: &str) -> (plan: RequestPlan)
    ensures
        plan.method == Method::Get,
        plan.path@ == "/repos/"@ + owner@ + "/"@ + repo@ + "/contents/"@ + dir@ + "/workflows"@,
        plan.query.deep_view() == Seq::<(Seq<char>, Seq<char>)>::empty(),
        plan.body is None,
{
    RequestPlan {
        method: Method::Get,
        path: repo_path_seg(owner, repo, "/contents/", dir, "/workflows"),
        query: Vec::new(),
        body: None,
    }
}

/// The name lines of a workflow file listing.
pub open spec fn spec_workflow_file_lines(items: Seq<Json>) -> Seq<Seq<char>>
    decreases items.len(),
{
    if items.len() == 0 {
        Seq::empty()
    } else {
        spec_workflow_file_lines(items.subrange(0, items.len() - 1)).push(
            "- "@ + spec_or(spec_get_str(items[items.len() - 1], "name"@), "?"@),
        )
    }
}

/// The entries a workflow file listing outcome carries; any error counts
/// as none.
pub open spec fn spec_workflow_file_entries(outcome: Result<Json, GitxError>) -> Seq<Json> {
    match outcome {
        Ok(v) => match v {
            Json::Arr(items) => items@,
            _ => Seq::<Json>::empty(),
        },
        Err(_) => Seq::<Json>::empty(),
    }
}

/// Decide a workflow file listing step: a headed file list when the
/// directory had entries, nothing when the next fallback must be tried.
pub fn workflow_files_decide(outcome: &Result<Json, GitxError>) -> (r: Option<String>)
    ensures
        match r {
            Some(t) => spec_workflow_file_entries(*outcome).len() > 0 && t@ == "Workflow files:\n"@
                + spec_join(
                spec_workflow_file_lines(spec_workflow_file_entries(*outcome)),
                "\n"@,
            ),
            None => spec_workflow_file_entries(*outcome).len() == 0,
        },
{
    let val = match outcome {
        Ok(v) => v,
        Err(_) => {
            return None;
        },
    };
    let items: &Vec<Json> = match val {
        Json::Arr(items) => items,
        _ => {
            return None;
        },
    };
    if items.len() == 0 {
        return None;
    }
    let mut lines: Vec<String> = Vec::new();
    let n = items.len();
    let mut i: usize = 0;
    while i < n
        invariant
            0 <= i <= n,
            n == items@.len(),
            lines.deep_view() == spec_workflow_file_lines(items@.subrange(0, i as int)),
        decreases n - i,
    {
        let j = &items[i];
        let mut line = String::from_str("- ");
        match j.get_str("name") {
            Some(s) => line.append(s.as_str()),
            None => line.append("?"),
        }
        push_part(&mut lines, line);
        proof {
            let now = items@.subrange(0, i + 1);
            assert(now.subrange(0, now.len() - 1) =~= items@.subrange(0, i as int));
            assert(now[now.len() - 1] == items@[i as int]);
            assert(lines.deep_view() =~= spec_workflow_file_lines(now));
        }
        i += 1;
    }
    proof {
        assert(items@.subrange(0, items@.len() as int) =~= items@);
    }
    let mut out = String::from_str("Workflow files:\n");
    let joined = join(&lines, "\n");
    out.append(joined.as_str());
    Some(out)
}

/// The text the workflow listing falls back to when every source is
/// empty.
pub fn no_workflows_text() -> (r: String)
    ensures
        r@ == "No workflows found."@,
{
    String::from_str("No workflows found.")
}

/// Plan the workflow run listing call.
pub fn actions_run_list_plan(owner: &str, repo: &str, p: &ActionsRunListParams) -> (plan:
    RequestPlan)
    ensures
        plan.method == Method::Get,
        plan.path@ == "/repos/"@ + owner@ + "/"@ + repo@ + "/actions/runs"@,
        plan.query.deep_view() == seq![
            ("page"@, spec_i64_string(spec_page_value(p.page))),
            ("limit"@, spec_i64_string(spec_limit_value(p.limit))),
        ],
        plan.body is None,
{
    let mut q: Vec<(String, String)> = Vec::new();
    push_query(&mut q, "page", i64_to_string(page_value(&p.page)));
    push_query(&mut q, "limit", i64_to_string(limit_value(&p.limit)));
    proof {
        assert(q.deep_view() =~= seq![
            ("page"@, spec_i64_string(spec_page_value(p.page))),
            ("limit"@, spec_i64_string(spec_limit_value(p.limit))),
        ]);
    }
    RequestPlan {
        method: Method::Get,
        path: repo_path(owner, repo, "/actions/runs"),
        query: q,
        body: None,
    }
}

/// The display title of a workflow run: its display title, else its name,
/// else a placeholder.
pub open spec fn spec_run_title(j: Json) -> Seq<char> {
    if spec_get_str(j, "display_title"@) is Some {
        spec_get_str(j, "display_title"@)->Some_0
    } else if spec_get_str(j, "name"@) is Some {
        spec_get_str(j, "name"@)->Some_0
    } else {
        "(untitled)"@
    }
}

/// The state shown for a run: the conclusion when non-empty, else the
/// status, else unknown.
pub open spec fn spec_run_state(j: Json) -> Seq<char> {
    let status = spec_or(spec_get_str(j, "status"@), "unknown"@);
    let conclusion = spec_or(spec_get_str(j, "conclusion"@), Seq::empty());
    if conclusion.len() > 0 {
        conclusion
    } else {
        status
    }
}

/// One line of a workflow run listing; the workflow is the run's path up
/// to any `@`.
pub open spec fn spec_run_line(j: Json) -> Seq<char> {
    let run_num: int = match spec_get_i64(j, "run_number"@) {
        Some(n) => n as int,
        None => 0,
    };
    let workflow = match spec_get_str(j, "path"@) {
        Some(pth) => spec_before_char(pth, '@'),
        None => "?"@,
    };
    "- #"@ + spec_i64_string(run_num) + " ["@ + workflow + "] "@ + spec_run_title(j) + " ("@
        + spec_run_state(j) + ")"@
}

/// The lines of a workflow run listing.
pub open spec fn spec_run_lines(items: Seq<Json>) -> Seq<Seq<char>>
    decreases items.len(),
{
    if items.len() == 0 {
        Seq::empty()
    } else {
        spec_run_lines(items.subrange(0, items.len() - 1)).push(
            spec_run_line(items[items.len() - 1]),
        )
    }
}

/// What the workflow run listing renders: runs live under the response's
/// `workflow_runs` key.
pub open spec fn spec_run_list_render(v: Json) -> Seq<char> {
    let items = match spec_get_arr(v, "workflow_runs"@) {
        Some(i) => i,
        None => Seq::<Json>::empty(),
    };
    if items.len() == 0 {
        "No workflow runs found."@
    } else {
        spec_join(spec_run_lines(items), "\n"@)
    }
}

fn run_title<'a>(j: &'a Json) -> (r: &'a str)
    ensures
        r@ == spec_run_title(*j),
{
    match j.get_str("display_title") {
        Some(s) => s.as_str(),
        None => match j.get_str("name") {
            Some(s) => s.as_str(),
            None => "(untitled)",
        },
    }
}

fn run_state<'a>(j: &'a Json) -> (r: &'a str)
    ensures
        r@ == spec_run_state(*j),
{
    let conclusion: &str = match j.get_str("conclusion") {
        Some(s) => s.as_str(),
        None => "",
    };
    proof {
        reveal_strlit("");
        assert(""@ =~= Seq::<char>::empty());
    }
    if !conclusion.is_empty() {
        conclusion
    } else {
        match j.get_str("status") {
            Some(s) => s.as_str(),
            None => "unknown",
        }
    }
}

/// Render the workflow run listing response.
pub fn actions_run_list_render(val: &Json) -> (r: String)
    ensures
        r@ == spec_run_list_render(*val),
{
    let items: &Vec<Json> = match val.get_arr("workflow_runs") {
        Some(items) => items,
        None => {
            return String::from_str("No workflow runs found.");
        },
    };
    if items.len() == 0 {
        return String::from_str("No workflow runs found.");
    }
    let mut lines: Vec<String> = Vec::new();
    let n = items.len();
    let mut i: usize = 0;
    while i < n
        invariant
            0 <= i <= n,
            n == items@.len(),
            lines.deep_view() == spec_run_lines(items@.subrange(0, i as int)),
        decreases n - i,
    {
        let j = &items[i];
        let run_num = match j.get_i64("run_number") {
            Some(x) => x,
            None => 0,
        };
        let mut line = String::from_str("- #");
        let num = i64_to_string(run_num);
        line.append(num.as_str());
        line.append(" [");
        match j.get_str("path") {
            Some(pth) => line.append(before_char(pth.as_str(), '@')),
            None => line.append("?"),
        }
        line.append("] ");
        line.append(run_title(j));
        line.append(" (");
        line.append(run_state(j));
        line.append(")");
        push_part(&mut lines, line);
        proof {
            let now = items@.subrange(0, i + 1);
            assert(now.subrange(0, now.len() - 1) =~= items@.subrange(0, i as int));
            assert(now[now.len() - 1] == items@[i as int]);
            assert(lines.deep_view() =~= spec_run_lines(now));
        }
        i += 1;
    }
    proof {
        assert(items@.subrange(0, items@.len() as int) =~= items@);
    }
    join(&lines, "\n")
}

/// Plan the single workflow run fetch.
pub fn actions_run_get_plan(owner: &str, repo: &str, p: &ActionsRunGetParams) -> (plan:
    RequestPlan)
    ensures
        plan.method == Method::Get,
        plan.path@ == "/repos/"@ + owner@ + "/"@ + repo@ + "/actions/runs/"@ + spec_i64_string(
            p.run_id as int,
        ),
        plan.query.deep_view() == Seq::<(Seq<char>, Seq<char>)>::empty(),
        plan.body is None,
{
    RequestPlan {
        method: Method::Get,
        path: repo_idx_path(owner, repo, "/actions/runs/", p.run_id),
        query: Vec::new(),
        body: None,
    }
}

/// The display parts of a workflow run: a heading, then each detail field
/// that is present (and, for the conclusion, non-empty).
pub open spec fn spec_run_parts(j: Json) -> Seq<Seq<char>> {
    let run_num: int = match spec_get_i64(j, "run_number"@) {
        Some(n) => n as int,
        None => 0,
    };
    seq![
        "## Run #"@ + spec_i64_string(run_num) + ": "@ + spec_run_title(j) + " ["@ + spec_or(
            spec_get_str(j, "status"@),
            "unknown"@,
        ) + "]"@,
    ] + (match spec_get_str(j, "conclusion"@) {
        Some(c) => if c.len() > 0 {
            seq!["**Conclusion:** "@ + c]
        } else {
            Seq::<Seq<char>>::empty()
        },
        None => Seq::<Seq<char>>::empty(),
    }) + (match spec_get_str(j, "path"@) {
        Some(w) => seq!["**Workflow:** "@ + spec_before_char(w, '@')],
        None => Seq::<Seq<char>>::empty(),
    }) + (match spec_get_str(j, "event"@) {
        Some(e) => seq!["**Event:** "@ + e],
        None => Seq::<Seq<char>>::empty(),
    }) + (match spec_get_str(j, "head_branch"@) {
        Some(b) => seq!["**Branch:** "@ + b],
        None => Seq::<Seq<char>>::empty(),
    }) + (match spec_get2_str(j, "actor"@, "login"@) {
        Some(a) => seq!["**Actor:** "@ + a],
        None => Seq::<Seq<char>>::empty(),
    }) + (match spec_get_str(j, "started_at"@) {
        Some(s) => seq!["**Started:** "@ + s],
        None => Seq::<Seq<char>>::empty(),
    }) + (match spec_get_str(j, "completed_at"@) {
        Some(c) => seq!["**Completed:** "@ + c],
        None => Seq::<Seq<char>>::empty(),
    })
}

/// What the single workflow run fetch renders.
pub open spec fn spec_run_get_render(j: Json) -> Seq<char> {
    spec_join(spec_run_parts(j), "\n"@)
}

/// Render the workflow run details.
pub fn actions_run_get_render(val: &Json) -> (r: String)
    ensures
        r@ == spec_run_get_render(*val),
{
    let mut parts: Vec<String> = Vec::new();
    let run_num = match val.get_i64("run_number") {
        Some(x) => x,
        None => 0,
    };
    let mut head = String::from_str("## Run #");
    let num = i64_to_string(run_num);
    head.append(num.as_str());
    head.append(": ");
    head.append(run_title(val));
    head.append(" [");
    match val.get_str("status") {
        Some(s) => head.append(s.as_str()),
        None => head.append("unknown"),
    }
    head.append("]");
    push_part(&mut parts, head);
    proof {
        let run_num_s: int = match spec_get_i64(*val, "run_number"@) {
            Some(n2) => n2 as int,
            None => 0,
        };
        assert(parts.deep_view() =~= seq![
            "## Run #"@ + spec_i64_string(run_num_s) + ": "@ + spec_run_title(*val) + " ["@
                + spec_or(spec_get_str(*val, "status"@), "unknown"@) + "]"@,
        ]);
    }
    push_nonempty_line(&mut parts, "**Conclusion:** ", val.get_str("conclusion"));
    let workflow: Option<String> = match val.get_str("path") {
        Some(w) => Some(String::from_str(before_char(w.as_str(), '@'))),
        None => None,
    };
    push_opt_line(&mut parts, "**Workflow:** ", workflow.as_ref());
    push_opt_line(&mut parts, "**Event:** ", val.get_str("event"));
    push_opt_line(&mut parts, "**Branch:** ", val.get_str("head_branch"));
    push_opt_line(&mut parts, "**Actor:** ", val.get2_str("actor", "login"));
    push_opt_line(&mut parts, "**Started:** ", val.get_str("started_at"));
    push_opt_line(&mut parts, "**Completed:** ", val.get_str("completed_at"));
    proof {
        assert(parts.deep_view() == spec_run_parts(*val));
    }
    join(&parts, "\n")
}

/// Plan the job log fetch; its renderer is the raw log formatter.
pub fn actions_job_logs_plan(owner: &str, repo: &str, p: &ActionsJobLogsParams) -> (plan:
    RequestPlan)
    ensures
        plan.method == Method::GetRaw,
        plan.path@ == "/repos/"@ + owner@ + "/"@ + repo@ + "/actions/jobs/"@ + spec_i64_string(
            p.job_id as int,
        ) + "/logs"@,
        plan.query.deep_view() == Seq::<(Seq<char>, Seq<char>)>::empty(),
        plan.body is None,
{
    RequestPlan {
        method: Method::GetRaw,
        path: repo_path_idx(owner, repo, "/actions/jobs/", p.job_id, "/logs"),
        query: Vec::new(),
        body: None,
    }
}

} // verus!
