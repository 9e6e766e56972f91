use gitx::error::GitxError;
use gitx::repo_resolver::{extract_owner_repo, parse_remote_url, resolve_repo_config};

#[test]
fn resolve_repo_from_fake_git_config() {
    let info = resolve_repo_config(
        "[remote \"origin\"]\n\turl = git@gitea.example.com:myorg/myproject.git\n",
    )
    .unwrap();
    assert_eq!(info.owner, "myorg");
    assert_eq!(info.repo, "myproject");
}

#[test]
fn ssh_shorthand_round_trip() {
    let info = parse_remote_url("git@host:org/proj.git").unwrap();
    assert_eq!(info.owner, "org");
    assert_eq!(info.repo, "proj");
}

#[test]
fn https_url_round_trip() {
    let info = parse_remote_url("https://host/org/proj").unwrap();
    assert_eq!(info.owner, "org");
    assert_eq!(info.repo, "proj");
}

#[test]
fn ssh_uri_form() {
    let info = parse_remote_url("ssh://git@host/org/proj.git").unwrap();
    assert_eq!(info.owner, "org");
    assert_eq!(info.repo, "proj");
}

#[test]
fn bare_path_fallback() {
    let info = parse_remote_url("org/proj").unwrap();
    assert_eq!(info.owner, "org");
    assert_eq!(info.repo, "proj");
}

#[test]
fn nested_group_segment_is_discarded() {
    let info = parse_remote_url("git@host:group/sub/proj.git").unwrap();
    assert_eq!(info.owner, "group");
    assert_eq!(info.repo, "sub");
}

#[test]
fn single_segment_fails() {
    let err = parse_remote_url("https://host/justone").unwrap_err();
    match err {
        GitxError::RepoResolution(m) => {
            assert_eq!(m, "Cannot extract owner/repo from path: justone");
        }
        other => panic!("expected a resolution failure, got {other:?}"),
    }
}

#[test]
fn extract_owner_repo_strips_suffix_and_slashes() {
    let info = extract_owner_repo("/org/proj.git").unwrap();
    assert_eq!(info.owner, "org");
    assert_eq!(info.repo, "proj");
}

#[test]
fn extract_owner_repo_rejects_single_part() {
    assert!(extract_owner_repo("lonely").is_err());
}

#[test]
fn missing_origin_section_fails_with_named_remote() {
    let err = resolve_repo_config("[remote \"upstream\"]\n\turl = git@host:a/b.git\n")
        .unwrap_err();
    match err {
        GitxError::RepoResolution(m) => {
            assert_eq!(m, "No remote 'origin' URL found in .git/config");
        }
        other => panic!("expected a resolution failure, got {other:?}"),
    }
}

#[test]
fn missing_url_key_fails_with_named_remote() {
    let err = resolve_repo_config("[remote \"origin\"]\n\tfetch = +refs/heads/*\n").unwrap_err();
    match err {
        GitxError::RepoResolution(m) => {
            assert_eq!(m, "No remote 'origin' URL found in .git/config");
        }
        other => panic!("expected a resolution failure, got {other:?}"),
    }
}

#[test]
fn whitespace_around_assignment_is_tolerated() {
    let info =
        resolve_repo_config("[remote \"origin\"]\n   url   =   git@host:a/b.git   \n").unwrap();
    assert_eq!(info.owner, "a");
    assert_eq!(info.repo, "b");
}

#[test]
fn first_origin_url_wins_and_later_sections_stop_nothing() {
    let content = "[core]\n\tbare = false\n[remote \"origin\"]\n\turl = git@host:one/two.git\n\turl = git@host:three/four.git\n[remote \"backup\"]\n\turl = git@host:five/six.git\n";
    let info = resolve_repo_config(content).unwrap();
    assert_eq!(info.owner, "one");
    assert_eq!(info.repo, "two");
}
