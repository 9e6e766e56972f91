use gitx::config::{detect_platform_from_remote, Config, EnvSignals};
use gitx::error::GitxError;
use gitx::platform::Platform;

fn signals() -> EnvSignals {
    EnvSignals {
        explicit_platform: None,
        gitea_url: None,
        gitea_token: None,
        github_token: None,
        github_url: None,
        remote_url: None,
    }
}

#[test]
fn explicit_gitea_override_uses_gitea_credentials() {
    let mut env = signals();
    env.explicit_platform = Some("gitea".to_string());
    env.gitea_url = Some("https://git.example.com/".to_string());
    env.gitea_token = Some("SECRET-REDACTED".to_string());

    let c = Config::resolve(&env).unwrap();
    assert_eq!(c.platform, Platform::Gitea);
    assert_eq!(c.base_url, "https://git.example.com");
}

#[test]
fn explicit_gitea_without_url_fails() {
    let mut env = signals();
    env.explicit_platform = Some("forgejo".to_string());
    env.gitea_token = Some("SECRET-REDACTED".to_string());

    let err = Config::resolve(&env).unwrap_err();
    match err {
        GitxError::MissingParam(m) => {
            assert_eq!(
                m,
                "GIT_PLATFORM=gitea but GITEA_URL (or FORGEJO_REMOTE_URL) is not set"
            );
        }
        other => panic!("expected a missing parameter, got {other:?}"),
    }
}

#[test]
fn explicit_github_defaults_public_base_url() {
    let mut env = signals();
    env.explicit_platform = Some("GitHub".to_string());
    env.github_token = Some("SECRET-REDACTED".to_string());

    let c = Config::resolve(&env).unwrap();
    assert_eq!(c.platform, Platform::GitHub);
    assert_eq!(c.base_url, "https://github.com");
}

#[test]
fn explicit_unrecognized_platform_fails() {
    let mut env = signals();
    env.explicit_platform = Some("codeberg".to_string());

    let err = Config::resolve(&env).unwrap_err();
    match err {
        GitxError::MissingParam(m) => {
            assert_eq!(
                m,
                "GIT_PLATFORM=codeberg is not recognized. Use 'gitea', 'forgejo', or 'github'."
            );
        }
        other => panic!("expected a missing parameter, got {other:?}"),
    }
}

#[test]
fn github_token_alone_selects_github() {
    let mut env = signals();
    env.github_token = Some("SECRET-REDACTED".to_string());

    let c = Config::resolve(&env).unwrap();
    assert_eq!(c.platform, Platform::GitHub);
    assert_eq!(c.base_url, "https://github.com");
}

#[test]
fn both_credential_sets_with_github_remote_select_github() {
    let mut env = signals();
    env.github_token = Some("SECRET-REDACTED".to_string());
    env.gitea_url = Some("https://git.example.com".to_string());
    env.gitea_token = Some("SECRET-REDACTED".to_string());
    env.remote_url = Some("git@github.com:org/proj.git".to_string());

    let c = Config::resolve(&env).unwrap();
    assert_eq!(c.platform, Platform::GitHub);
}

#[test]
fn both_credential_sets_with_gitea_remote_select_gitea() {
    let mut env = signals();
    env.github_token = Some("SECRET-REDACTED".to_string());
    env.gitea_url = Some("https://Git.Example.Com".to_string());
    env.gitea_token = Some("SECRET-REDACTED".to_string());
    env.remote_url = Some("git@git.example.com:org/proj.git".to_string());

    let c = Config::resolve(&env).unwrap();
    assert_eq!(c.platform, Platform::Gitea);
    assert_eq!(c.base_url, "https://Git.Example.Com");
}

#[test]
fn both_credential_sets_with_unrelated_remote_fail() {
    let mut env = signals();
    env.github_token = Some("SECRET-REDACTED".to_string());
    env.gitea_url = Some("https://git.example.com".to_string());
    env.gitea_token = Some("SECRET-REDACTED".to_string());
    env.remote_url = Some("git@elsewhere.org:org/proj.git".to_string());

    let err = Config::resolve(&env).unwrap_err();
    match err {
        GitxError::MissingParam(m) => {
            assert_eq!(
                m,
                "Both GITHUB_TOKEN and GITEA_URL/GITEA_TOKEN are set. Set GIT_PLATFORM=github or GIT_PLATFORM=gitea to disambiguate."
            );
        }
        other => panic!("expected a missing parameter, got {other:?}"),
    }
}

#[test]
fn gitea_credentials_alone_select_gitea() {
    let mut env = signals();
    env.gitea_url = Some("https://git.example.com///".to_string());
    env.gitea_token = Some("SECRET-REDACTED".to_string());

    let c = Config::resolve(&env).unwrap();
    assert_eq!(c.platform, Platform::Gitea);
    assert_eq!(c.base_url, "https://git.example.com");
}

#[test]
fn no_credentials_fail() {
    let err = Config::resolve(&signals()).unwrap_err();
    match err {
        GitxError::MissingParam(m) => {
            assert_eq!(
                m,
                "No git platform credentials found. Set GITEA_URL + GITEA_TOKEN for Gitea/Forgejo, or GITHUB_TOKEN for GitHub."
            );
        }
        other => panic!("expected a missing parameter, got {other:?}"),
    }
}

#[test]
fn remote_detection_prefers_github_hostname() {
    let p = detect_platform_from_remote("https://github.com/org/proj", "https://git.example.com");
    assert_eq!(p, Some(Platform::GitHub));
}

#[test]
fn remote_detection_matches_configured_host_case_insensitively() {
    let p = detect_platform_from_remote(
        "  git@git.example.com:org/proj.git  ",
        "https://GIT.example.com",
    );
    assert_eq!(p, Some(Platform::Gitea));
}

#[test]
fn remote_detection_yields_nothing_for_empty_or_unrelated_remotes() {
    assert_eq!(detect_platform_from_remote("   ", "https://git.example.com"), None);
    assert_eq!(
        detect_platform_from_remote("git@elsewhere.org:a/b.git", "https://git.example.com"),
        None
    );
}
