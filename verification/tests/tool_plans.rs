use gitx::error::GitxError;
use gitx::json::{render_json, Json};
use gitx::platform::Platform;
use gitx::request::Method;
use gitx::server::{detected_repo_json, resource_uri};
use gitx::repo_resolver::RepoInfo;
use gitx::response::{format_diff, format_logs};
use gitx::tools::actions::{
    gitea_tasks_decide, workflow_files_decide, workflow_files_plan, workflow_list_plan,
};
use gitx::tools::branches::{branch_protection_create_plan, BranchProtectionCreateParams};
use gitx::tools::files::{file_create_plan, FileCreateParams};
use gitx::tools::issues::{issue_create_plan, issue_list_plan, issue_list_render, IssueCreateParams, IssueListParams};
use gitx::tools::labels::{label_create_plan, LabelCreateParams};
use gitx::tools::notifications::{notification_mark_read_plan, NotificationMarkReadParams};
use gitx::tools::pulls::{pr_merge_plan, PrMergeParams};
use gitx::tools::wiki::{wiki_list_render, wiki_list_plan, WikiListParams};
use gitx::types::common::PaginationParams;

fn s(x: &str) -> String {
    x.to_string()
}

fn obj(pairs: Vec<(&str, Json)>) -> Json {
    Json::Obj(pairs.into_iter().map(|(k, v)| (k.to_string(), v)).collect())
}

fn issue_list_params() -> IssueListParams {
    IssueListParams {
        owner: None,
        repo: None,
        directory: None,
        state: None,
        labels: None,
        milestone: None,
        page: None,
        limit: Some(500),
    }
}

#[test]
fn issue_list_query_differs_by_platform() {
    let p = issue_list_params();
    let plan = issue_list_plan(Platform::Gitea, "o", "r", &p);
    assert_eq!(plan.method, Method::Get);
    assert_eq!(plan.path, "/repos/o/r/issues");
    let q: Vec<(String, String)> = plan.query;
    assert_eq!(
        q,
        vec![
            (s("state"), s("open")),
            (s("type"), s("issues")),
            (s("page"), s("1")),
            (s("limit"), s("50")),
        ]
    );

    let plan2 = issue_list_plan(Platform::GitHub, "o", "r", &issue_list_params());
    assert_eq!(
        plan2.query,
        vec![(s("state"), s("open")), (s("page"), s("1")), (s("limit"), s("50"))]
    );
}

#[test]
fn issue_list_render_drops_pull_requests_on_github_only() {
    let items = Json::Arr(vec![
        obj(vec![
            ("number", Json::Int(1)),
            ("title", Json::Str(s("Real issue"))),
            ("state", Json::Str(s("open"))),
        ]),
        obj(vec![
            ("number", Json::Int(2)),
            ("title", Json::Str(s("A PR"))),
            ("state", Json::Str(s("open"))),
            ("pull_request", obj(vec![])),
        ]),
    ]);
    assert_eq!(
        issue_list_render(Platform::GitHub, &items),
        "- #1 Real issue (open)"
    );
    assert_eq!(
        issue_list_render(Platform::Gitea, &items),
        "- #1 Real issue (open)\n- #2 A PR (open)"
    );
}

#[test]
fn issue_create_body_holds_exactly_the_given_fields() {
    let p = IssueCreateParams {
        owner: None,
        repo: None,
        directory: None,
        title: s("T"),
        body: Some(s("B")),
        labels: Some(vec![3, 5]),
        milestone: None,
        assignees: Some(vec![s("alice")]),
    };
    let plan = issue_create_plan("o", "r", &p);
    assert_eq!(plan.method, Method::Post);
    assert_eq!(plan.path, "/repos/o/r/issues");
    let body = plan.body.unwrap();
    assert_eq!(
        render_json(&body),
        "{\"title\":\"T\",\"body\":\"B\",\"labels\":[3,5],\"assignees\":[\"alice\"]}"
    );
}

#[test]
fn merge_body_keys_differ_by_platform() {
    let p = PrMergeParams {
        owner: None,
        repo: None,
        directory: None,
        index: 9,
        merge_style: Some(s("squash")),
        merge_message: Some(s("msg")),
        delete_branch_after_merge: Some(true),
    };
    let plan = pr_merge_plan(Platform::Gitea, "o", "r", &p);
    assert_eq!(plan.method, Method::PostNoContent);
    assert_eq!(plan.path, "/repos/o/r/pulls/9/merge");
    assert_eq!(
        render_json(&plan.body.unwrap()),
        "{\"Do\":\"squash\",\"merge_message_field\":\"msg\",\"delete_branch_after_merge\":true}"
    );

    let p2 = PrMergeParams {
        owner: None,
        repo: None,
        directory: None,
        index: 9,
        merge_style: None,
        merge_message: None,
        delete_branch_after_merge: None,
    };
    let plan2 = pr_merge_plan(Platform::GitHub, "o", "r", &p2);
    assert_eq!(render_json(&plan2.body.unwrap()), "{\"merge_method\":\"merge\"}");
}

#[test]
fn file_create_encodes_content_as_base64() {
    let p = FileCreateParams {
        owner: None,
        repo: None,
        directory: None,
        path: s("/docs/hello.txt"),
        content: s("hello world"),
        message: s("add hello"),
        branch: None,
        new_branch: None,
    };
    let plan = file_create_plan("o", "r", &p);
    assert_eq!(plan.path, "/repos/o/r/contents/docs/hello.txt");
    assert_eq!(
        render_json(&plan.body.unwrap()),
        "{\"content\":\"aGVsbG8gd29ybGQ=\",\"message\":\"add hello\"}"
    );
}

#[test]
fn label_color_gains_a_hash_prefix_when_missing() {
    let p = LabelCreateParams {
        owner: None,
        repo: None,
        directory: None,
        name: s("bug"),
        color: s("ff0000"),
        description: None,
    };
    let plan = label_create_plan("o", "r", &p);
    assert_eq!(
        render_json(&plan.body.unwrap()),
        "{\"name\":\"bug\",\"color\":\"#ff0000\"}"
    );
}

#[test]
fn github_protection_body_follows_review_settings() {
    let p = BranchProtectionCreateParams {
        owner: None,
        repo: None,
        directory: None,
        branch_name: s("main"),
        enable_push: Some(false),
        block_on_rejected_reviews: Some(true),
    };
    let plan = branch_protection_create_plan(Platform::GitHub, "o", "r", &p);
    assert_eq!(plan.method, Method::Put);
    assert_eq!(plan.path, "/repos/o/r/branches/main/protection");
    assert_eq!(
        render_json(&plan.body.unwrap()),
        "{\"required_status_checks\":null,\"enforce_admins\":true,\"required_pull_request_reviews\":{\"dismiss_stale_reviews\":true,\"required_approving_review_count\":1},\"restrictions\":null}"
    );
}

#[test]
fn notification_mark_read_targets_one_thread_or_all() {
    let one = notification_mark_read_plan(&NotificationMarkReadParams { id: Some(12) });
    assert_eq!(one.method, Method::Patch);
    assert_eq!(one.path, "/notifications/threads/12");
    let all = notification_mark_read_plan(&NotificationMarkReadParams { id: None });
    assert_eq!(all.method, Method::Put);
    assert_eq!(all.path, "/notifications");
    assert_eq!(render_json(&all.body.unwrap()), "{}");
}

#[test]
fn pagination_caps_the_limit() {
    let q = PaginationParams { page: Some(3), limit: Some(500) }.to_query();
    assert_eq!(q, vec![("page", s("3")), ("limit", s("50"))]);
    let q2 = PaginationParams { page: None, limit: None }.to_query();
    assert_eq!(q2, vec![("limit", s("20"))]);
}

#[test]
fn wiki_listing_tolerates_not_found_only() {
    let p = WikiListParams {
        owner: None,
        repo: None,
        directory: None,
        page: None,
        limit: None,
    };
    let plan = wiki_list_plan("o", "r", &p);
    assert_eq!(plan.path, "/repos/o/r/wiki/pages");

    let tolerated = wiki_list_render(Err(GitxError::NotFound(s("u")))).unwrap();
    assert_eq!(
        tolerated,
        "No wiki pages found (wiki may be disabled for this repository)."
    );
    let propagated = wiki_list_render(Err(GitxError::Auth));
    assert!(matches!(propagated, Err(GitxError::Auth)));
    let listed = wiki_list_render(Ok(Json::Arr(vec![obj(vec![
        ("title", Json::Str(s("Home"))),
        ("sub_url", Json::Str(s("Home"))),
    ])])))
    .unwrap();
    assert_eq!(listed, "- Home (slug: Home)");
}

#[test]
fn workflow_listing_falls_back_through_file_directories() {
    let plan = workflow_list_plan(Platform::Gitea, "o", "r");
    assert_eq!(plan.path, "/repos/o/r/actions/tasks");
    let gh = workflow_list_plan(Platform::GitHub, "o", "r");
    assert_eq!(gh.path, "/repos/o/r/actions/workflows");
    let files = workflow_files_plan("o", "r", ".gitea");
    assert_eq!(files.path, "/repos/o/r/contents/.gitea/workflows");

    // Errors and empty run lists defer to the fallback.
    assert!(gitea_tasks_decide(&Err(GitxError::Auth)).is_none());
    assert!(gitea_tasks_decide(&Ok(obj(vec![("workflow_runs", Json::Arr(vec![]))]))).is_none());
    let decided = gitea_tasks_decide(&Ok(obj(vec![(
        "workflow_runs",
        Json::Arr(vec![obj(vec![
            ("name", Json::Str(s("ci"))),
            ("status", Json::Str(s("success"))),
        ])]),
    )])));
    assert_eq!(decided.unwrap(), "- ci (success)");

    assert!(workflow_files_decide(&Ok(Json::Arr(vec![]))).is_none());
    let files_text = workflow_files_decide(&Ok(Json::Arr(vec![obj(vec![(
        "name",
        Json::Str(s("ci.yml")),
    )])])));
    assert_eq!(files_text.unwrap(), "Workflow files:\n- ci.yml");
}

#[test]
fn raw_text_renders_have_placeholders() {
    assert_eq!(format_diff(""), "No diff content.");
    assert_eq!(format_diff("+x"), "```diff\n+x\n```");
    assert_eq!(format_logs(""), "No logs available.");
    assert_eq!(format_logs("line"), "```\nline\n```");
}

#[test]
fn resource_uri_constant() {
    assert_eq!(resource_uri(), "repo://detected");
}

#[test]
fn read_resource_returns_owner_repo_json() {
    let info = RepoInfo {
        owner: s("testowner"),
        repo: s("testrepo"),
    };
    let text = detected_repo_json(&info);
    let parsed: serde_json::Value = serde_json::from_str(&text).unwrap();
    assert_eq!(parsed["owner"], "testowner");
    assert_eq!(parsed["repo"], "testrepo");
}
