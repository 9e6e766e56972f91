use gitx::client::{
    accept_header_value, api_base, api_version_value, auth_header_value, normalize_status,
    raw_accept_header_value, request_url,
};
use gitx::error::GitxError;
use gitx::platform::Platform;

#[test]
fn unauthorized_and_forbidden_map_to_auth_failure() {
    for status in [401u16, 403u16] {
        let err = normalize_status(status, "https://api/x", "secret-looking body").unwrap_err();
        assert!(matches!(err, GitxError::Auth));
    }
}

#[test]
fn not_found_carries_the_request_url() {
    let err = normalize_status(404, "https://api/repos/a/b", "ignored").unwrap_err();
    match err {
        GitxError::NotFound(u) => assert_eq!(u, "https://api/repos/a/b"),
        other => panic!("expected not-found, got {other:?}"),
    }
}

#[test]
fn other_failures_carry_status_and_body() {
    let err = normalize_status(500, "https://api/x", "boom").unwrap_err();
    match err {
        GitxError::Api(m) => assert_eq!(m, "HTTP 500: boom"),
        other => panic!("expected an API failure, got {other:?}"),
    }
}

#[test]
fn success_statuses_pass() {
    assert!(normalize_status(200, "u", "b").is_ok());
    assert!(normalize_status(204, "u", "b").is_ok());
    assert!(normalize_status(299, "u", "b").is_ok());
    assert!(normalize_status(300, "u", "b").is_err());
    assert!(normalize_status(199, "u", "b").is_err());
}

#[test]
fn auth_headers_differ_by_platform() {
    assert_eq!(auth_header_value(Platform::Gitea, "t0"), "token t0");
    assert_eq!(auth_header_value(Platform::GitHub, "t0"), "Bearer t0");
}

#[test]
fn accept_headers_differ_by_platform() {
    assert_eq!(accept_header_value(Platform::Gitea), "application/json");
    assert_eq!(accept_header_value(Platform::GitHub), "application/vnd.github+json");
    assert_eq!(raw_accept_header_value(Platform::Gitea), "text/plain");
    assert_eq!(raw_accept_header_value(Platform::GitHub), "application/vnd.github.diff");
    assert_eq!(api_version_value(), "2022-11-28");
}

#[test]
fn api_base_derivation() {
    assert_eq!(
        api_base(Platform::Gitea, "https://git.example.com"),
        "https://git.example.com/api/v1"
    );
    assert_eq!(api_base(Platform::GitHub, "https://github.com"), "https://api.github.com");
    assert_eq!(
        api_base(Platform::GitHub, "https://ghe.example.com"),
        "https://ghe.example.com/api/v3"
    );
}

#[test]
fn request_url_concatenates() {
    assert_eq!(
        request_url("https://api.github.com", "/repos/a/b"),
        "https://api.github.com/repos/a/b"
    );
}

#[test]
fn error_messages_and_classes() {
    let auth = GitxError::Auth;
    assert_eq!(auth.message(), "Authentication failed - check your API token");
    assert!(auth.is_invalid_params());
    let api = GitxError::Api("HTTP 500: x".to_string());
    assert_eq!(api.message(), "API request failed: HTTP 500: x");
    assert!(!api.is_invalid_params());
    let transport = GitxError::Transport("bad json".to_string());
    assert_eq!(transport.message(), "Transport error: bad json");
    assert!(!transport.is_invalid_params());
    let missing = GitxError::MissingParam("x".to_string());
    assert!(missing.is_invalid_params());
    let nf = GitxError::NotFound("u".to_string());
    assert!(nf.is_invalid_params());
    let rr = GitxError::RepoResolution("d".to_string());
    assert_eq!(rr.message(), "Could not resolve repository from directory: d");
    assert!(!rr.is_invalid_params());
}
