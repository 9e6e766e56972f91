use gitx::repo_resolver::{resolve_repo_config, RepoInfo};
use gitx::server::{resolve_owner_repo, RepoChoice};

fn default_repo(owner: &str, repo: &str) -> Option<RepoInfo> {
    Some(RepoInfo {
        owner: owner.to_string(),
        repo: repo.to_string(),
    })
}

#[test]
fn explicit_owner_repo_takes_priority() {
    let owner = Some("alice".to_string());
    let repo = Some("my-repo".to_string());
    let default = default_repo("default-owner", "default-repo");

    match resolve_owner_repo(&owner, &repo, &None, &default) {
        RepoChoice::Explicit(info) => {
            assert_eq!(info.owner, "alice");
            assert_eq!(info.repo, "my-repo");
        }
        other => panic!("expected the explicit coordinates, got {other:?}"),
    }
}

#[test]
fn empty_strings_skip_to_default() {
    let owner = Some(String::new());
    let repo = Some(String::new());
    let default = default_repo("fallback-owner", "fallback-repo");

    match resolve_owner_repo(&owner, &repo, &None, &default) {
        RepoChoice::Detected(info) => {
            assert_eq!(info.owner, "fallback-owner");
            assert_eq!(info.repo, "fallback-repo");
        }
        other => panic!("expected the detected default, got {other:?}"),
    }
}

#[test]
fn partial_owner_repo_falls_to_default() {
    // Only owner provided, no repo — must skip to the default.
    let owner = Some("alice".to_string());
    let repo: Option<String> = None;
    let default = default_repo("fallback-owner", "fallback-repo");

    match resolve_owner_repo(&owner, &repo, &None, &default) {
        RepoChoice::Detected(info) => {
            assert_eq!(info.owner, "fallback-owner");
            assert_eq!(info.repo, "fallback-repo");
        }
        other => panic!("expected the detected default, got {other:?}"),
    }
}

#[test]
fn directory_overrides_default() {
    let default = default_repo("should-not-use", "should-not-use");
    let dir = Some("/work/checkout".to_string());

    match resolve_owner_repo(&None, &None, &dir, &default) {
        RepoChoice::Directory(d) => {
            assert_eq!(d, "/work/checkout");
            // The lookup that follows the choice parses the directory's git
            // configuration.
            let info = resolve_repo_config(
                "[remote \"origin\"]\n\turl = https://example.com/dir-owner/dir-repo.git\n",
            )
            .unwrap();
            assert_eq!(info.owner, "dir-owner");
            assert_eq!(info.repo, "dir-repo");
        }
        other => panic!("expected the directory override, got {other:?}"),
    }
}

#[test]
fn empty_directory_uses_default() {
    let default = default_repo("default-owner", "default-repo");

    match resolve_owner_repo(&None, &None, &Some(String::new()), &default) {
        RepoChoice::Detected(info) => {
            assert_eq!(info.owner, "default-owner");
            assert_eq!(info.repo, "default-repo");
        }
        other => panic!("expected the detected default, got {other:?}"),
    }
}

#[test]
fn no_default_no_directory_falls_to_cwd() {
    // No explicit params, no default — the chain defers to a working
    // directory lookup as its last resort.
    let choice = resolve_owner_repo(&None, &None, &None, &None);
    assert!(matches!(choice, RepoChoice::WorkingDir));
}

#[test]
fn bad_directory_no_default_errors() {
    // A nonexistent directory is still chosen; the lookup it triggers is
    // what fails, and the chain never falls back past an explicit
    // directory.
    let dir = Some("/nonexistent/path/that/does/not/exist".to_string());
    match resolve_owner_repo(&None, &None, &dir, &None) {
        RepoChoice::Directory(d) => {
            assert_eq!(d, "/nonexistent/path/that/does/not/exist");
        }
        other => panic!("expected the directory override, got {other:?}"),
    }
}
