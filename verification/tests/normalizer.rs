use gitx::json::{render_json, Json};
use gitx::response::{
    format_branch, format_comment, format_commit, format_commit_list, format_file_content,
    format_file_list, format_issue, format_issue_list, format_pull_request, format_value,
};

fn s(x: &str) -> String {
    x.to_string()
}

fn obj(pairs: Vec<(&str, Json)>) -> Json {
    Json::Obj(pairs.into_iter().map(|(k, v)| (k.to_string(), v)).collect())
}

#[test]
fn null_renders_placeholder() {
    assert_eq!(format_value(&Json::Null), "No data returned.");
}

#[test]
fn empty_array_renders_placeholder() {
    assert_eq!(format_value(&Json::Arr(vec![])), "No items found.");
}

#[test]
fn empty_object_renders_placeholder() {
    assert_eq!(format_value(&obj(vec![])), "No displayable fields.");
}

#[test]
fn deeply_nested_unknown_object_renders_placeholder() {
    let deep = obj(vec![(
        "alpha",
        obj(vec![("beta", obj(vec![("gamma", Json::Int(1))]))]),
    )]);
    let out = format_value(&deep);
    assert!(!out.is_empty());
    assert_eq!(out, "No displayable fields.");
}

#[test]
fn normalizer_is_idempotent() {
    let v = obj(vec![
        ("title", Json::Str(s("hello"))),
        ("count", Json::Int(3)),
        ("user", obj(vec![("login", Json::Str(s("alice")))])),
    ]);
    let first = format_value(&v);
    let second = format_value(&v);
    assert_eq!(first, second);
}

#[test]
fn scalar_fields_render_as_lines() {
    let v = obj(vec![
        ("title", Json::Str(s("x"))),
        ("count", Json::Int(3)),
        ("flag", Json::Bool(true)),
        ("nothing", Json::Null),
        ("empty", Json::Str(s(""))),
    ]);
    assert_eq!(format_value(&v), "**title:** x\n**count:** 3\n**flag:** true");
}

#[test]
fn array_of_named_objects_renders_inline() {
    let v = obj(vec![(
        "labels",
        Json::Arr(vec![
            obj(vec![("name", Json::Str(s("bug")))]),
            obj(vec![("name", Json::Str(s("ui")))]),
        ]),
    )]);
    assert_eq!(format_value(&v), "**labels:** bug, ui");
}

#[test]
fn nested_object_renders_through_login() {
    let v = obj(vec![("user", obj(vec![("login", Json::Str(s("alice")))]))]);
    assert_eq!(format_value(&v), "**user:** alice");
}

#[test]
fn scalar_value_renders_as_json_text() {
    assert_eq!(format_value(&Json::Str(s("a\"b"))), "\"a\\\"b\"");
    assert_eq!(format_value(&Json::Bool(false)), "false");
    assert_eq!(format_value(&Json::Int(-7)), "-7");
}

#[test]
fn render_json_escapes_and_nests() {
    let v = obj(vec![
        ("a", Json::Arr(vec![Json::Int(1), Json::Null, Json::Str(s("x\ny"))])),
        ("b", Json::Num(s("1.5"))),
    ]);
    assert_eq!(render_json(&v), "{\"a\":[1,null,\"x\\ny\"],\"b\":1.5}");
}

#[test]
fn issue_renders_with_fixed_field_order() {
    let issue = obj(vec![
        ("number", Json::Int(42)),
        ("title", Json::Str(s("Broken build"))),
        ("state", Json::Str(s("open"))),
        ("user", obj(vec![("login", Json::Str(s("alice")))])),
        (
            "labels",
            Json::Arr(vec![obj(vec![("name", Json::Str(s("bug")))])]),
        ),
        (
            "assignees",
            Json::Arr(vec![obj(vec![("login", Json::Str(s("bob")))])]),
        ),
        ("milestone", obj(vec![("title", Json::Str(s("v1")))])),
        ("created_at", Json::Str(s("2024-01-01T00:00:00Z"))),
        ("updated_at", Json::Str(s("2024-01-02T00:00:00Z"))),
        ("body", Json::Str(s("It fails."))),
    ]);
    assert_eq!(
        format_issue(&issue),
        "## #42 Broken build [open]\n**Author:** alice\n**Labels:** bug\n**Assignees:** bob\n**Milestone:** v1\n**Created:** 2024-01-01T00:00:00Z\n**Updated:** 2024-01-02T00:00:00Z\n\nIt fails."
    );
}

#[test]
fn issue_without_number_renders_remaining_fields() {
    let issue = obj(vec![("user", obj(vec![("login", Json::Str(s("alice")))]))]);
    assert_eq!(format_issue(&issue), "**Author:** alice");
}

#[test]
fn issue_list_renders_lines_with_fallbacks() {
    let issues = vec![
        obj(vec![
            ("number", Json::Int(1)),
            ("title", Json::Str(s("One"))),
            ("state", Json::Str(s("open"))),
            (
                "labels",
                Json::Arr(vec![obj(vec![("name", Json::Str(s("bug")))])]),
            ),
        ]),
        obj(vec![]),
    ];
    assert_eq!(
        format_issue_list(&issues),
        "- #1 One (open) [bug]\n- #0 (untitled) (unknown)"
    );
}

#[test]
fn empty_issue_list_renders_placeholder() {
    assert_eq!(format_issue_list(&vec![]), "No issues found.");
}

#[test]
fn pull_request_renders_branches_and_mergeable() {
    let pr = obj(vec![
        ("number", Json::Int(7)),
        ("title", Json::Str(s("Add feature"))),
        ("state", Json::Str(s("open"))),
        ("head", obj(vec![("label", Json::Str(s("alice:feat")))])),
        ("base", obj(vec![("label", Json::Str(s("main")))])),
        ("mergeable", Json::Bool(true)),
    ]);
    assert_eq!(
        format_pull_request(&pr),
        "## PR #7 Add feature [open]\n**Branch:** alice:feat -> main\n**Mergeable:** true"
    );
}

#[test]
fn comment_renders_with_fallbacks() {
    let comment = obj(vec![
        ("id", Json::Int(5)),
        ("user", obj(vec![("login", Json::Str(s("carol")))])),
        ("created_at", Json::Str(s("2024-03-01"))),
        ("body", Json::Str(s("Looks good"))),
    ]);
    assert_eq!(
        format_comment(&comment),
        "**Comment #5** by carol (2024-03-01):\nLooks good"
    );
    assert_eq!(format_comment(&obj(vec![])), "**Comment #0** by unknown ():\n");
}

#[test]
fn commit_renders_author_and_date() {
    let commit = obj(vec![
        ("sha", Json::Str(s("abcdef1234567890"))),
        (
            "commit",
            obj(vec![
                ("message", Json::Str(s("Fix the parser"))),
                (
                    "author",
                    obj(vec![
                        ("name", Json::Str(s("Alice"))),
                        ("date", Json::Str(s("2024-02-02"))),
                    ]),
                ),
            ]),
        ),
    ]);
    assert_eq!(
        format_commit(&commit),
        "**Commit:** abcdef1234567890\n**Message:** Fix the parser\n**Author:** Alice (2024-02-02)"
    );
}

#[test]
fn commit_list_abbreviates_and_takes_first_line() {
    let commits = vec![obj(vec![
        ("sha", Json::Str(s("0123456789abcdef"))),
        (
            "commit",
            obj(vec![("message", Json::Str(s("Headline\n\nDetails here")))]),
        ),
    ])];
    assert_eq!(format_commit_list(&commits), "- `0123456` Headline");
}

#[test]
fn branch_renders_protection_and_short_hash() {
    let branch = obj(vec![
        ("name", Json::Str(s("main"))),
        ("protected", Json::Bool(true)),
        ("commit", obj(vec![("id", Json::Str(s("fedcba9876543210")))])),
    ]);
    assert_eq!(format_branch(&branch), "- main (`fedcba9`) [protected]");
}

#[test]
fn file_content_decodes_base64() {
    let file = obj(vec![
        ("name", Json::Str(s("hello.txt"))),
        ("path", Json::Str(s("docs/hello.txt"))),
        ("type", Json::Str(s("file"))),
        ("content", Json::Str(s("aGVsbG8g\nd29ybGQ="))),
        ("size", Json::Int(11)),
        ("sha", Json::Str(s("abc123"))),
    ]);
    assert_eq!(
        format_file_content(&file),
        "**File:** docs/hello.txt (11 bytes)\n**SHA:** abc123\n\n```\nhello world\n```"
    );
}

#[test]
fn file_content_tolerates_binary_and_empty() {
    let binary = obj(vec![
        ("path", Json::Str(s("blob.bin"))),
        ("content", Json::Str(s("/w=="))),
    ]);
    assert_eq!(
        format_file_content(&binary),
        "**File:** blob.bin (0 bytes)\n\n```\n(binary content)\n```"
    );

    let empty = obj(vec![("path", Json::Str(s("empty.txt")))]);
    assert_eq!(
        format_file_content(&empty),
        "**File:** empty.txt (0 bytes)\n\n```\n(empty file)\n```"
    );
}

#[test]
fn file_content_marks_directories() {
    let dir = obj(vec![
        ("path", Json::Str(s("src"))),
        ("type", Json::Str(s("dir"))),
    ]);
    assert_eq!(format_file_content(&dir), "**src/** (directory)");
}

#[test]
fn file_list_marks_directories() {
    let entries = vec![
        obj(vec![
            ("name", Json::Str(s("src"))),
            ("type", Json::Str(s("dir"))),
        ]),
        obj(vec![("name", Json::Str(s("README.md")))]),
    ];
    assert_eq!(format_file_list(&entries), "- src/\n- README.md");
    assert_eq!(format_file_list(&vec![]), "No files found.");
}
