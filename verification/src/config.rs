use vstd::prelude::*;
use vstd::string::StrSliceExecFns;
use vstd::string::StringExecFns;

use crate::error::GitxError;
use crate::platform::Platform;
use crate::strutil::{contains_sub, spec_contains, spec_trim, spec_trim_end_char, str_eq, trim,
    trim_end_char};
use crate::trusted::{lower_of, lowercase, url_host, url_host_of};

verus! {

/// Server configuration derived from environment signals.
#[derive(Debug, Clone)]
pub struct Config {
    /// Base URL of the git hosting instance, without a trailing slash.
    pub base_url: String,
    /// API token for authentication; opaque, never rendered.
    pub token: String,
    /// Which platform this configuration targets.
    pub platform: Platform,
}

/// The environment signals the resolver consults. The process edge reads
/// them (environment variables, and the working directory's origin remote)
/// and hands them over as plain values.
#[derive(Debug, Clone)]
pub struct EnvSignals {
    /// An explicit platform override, when set.
    pub explicit_platform: Option<String>,
    /// The Gitea/Forgejo base URL, when set.
    pub gitea_url: Option<String>,
    /// The Gitea/Forgejo token, when set.
    pub gitea_token: Option<String>,
    /// The GitHub token, when set.
    pub github_token: Option<String>,
    /// A GitHub base URL override, when set.
    pub github_url: Option<String>,
    /// The working directory's origin remote URL, when one was found.
    pub remote_url: Option<String>,
}

/// A base URL as stored: trailing slashes removed.
pub open spec fn spec_stripped(u: Seq<char>) -> Seq<char> {
    spec_trim_end_char(u, '/')
}

/// The GitHub base URL: the override when set, the public hostname
/// otherwise, trailing slashes removed.
pub open spec fn spec_github_base(github_url: Option<String>) -> Seq<char> {
    match github_url {
        Some(u) => spec_stripped(u@),
        None => "https://github.com"@,
    }
}

/// Platform detection from an origin remote URL: the public GitHub
/// hostname wins, then the configured Gitea host (compared lower-cased,
/// by substring containment), else no answer.
pub open spec fn spec_detect_platform(remote: Seq<char>, gitea_url: Seq<char>) -> Option<
    Platform,
> {
    let r = spec_trim(remote);
    if r.len() == 0 {
        None
    } else if spec_contains(r, "github.com"@) {
        Some(Platform::GitHub)
    } else {
        match url_host_of(gitea_url) {
            Some(h) => if spec_contains(r, lower_of(h)) {
                Some(Platform::Gitea)
            } else {
                None
            },
            None => None,
        }
    }
}

/// Detect the platform a remote URL points at, given the configured
/// Gitea/Forgejo base URL for host comparison.
pub fn detect_platform_from_remote(remote: &str, gitea_url: &str) -> (r: Option<Platform>)
    ensures
        r == spec_detect_platform(remote@, gitea_url@),
{
    let rt = trim(remote);
    if rt.is_empty() {
        return None;
    }
    if contains_sub(rt, "github.com") {
        return Some(Platform::GitHub);
    }
    match url_host(gitea_url) {
        Some(h) => {
            let hl = lowercase(h.as_str());
            if contains_sub(rt, hl.as_str()) {
                Some(Platform::Gitea)
            } else {
                None
            }
        },
        None => None,
    }
}

/// What platform detection yields inside configuration resolution: the
/// remote signal when present, no answer otherwise.
pub open spec fn spec_detect_signal(env: EnvSignals, gitea_url: Seq<char>) -> Option<Platform> {
    match env.remote_url {
        Some(r) => spec_detect_platform(r@, gitea_url),
        None => None,
    }
}

/// The configuration that resolution yields, or None where it fails:
/// an explicit override wins; then GitHub-only credentials; then, with
/// both credential families present, whatever the local remote
/// disambiguates; then Gitea-only credentials.
pub open spec fn spec_resolve_config(env: EnvSignals) -> Option<(Platform, Seq<char>, Seq<char>)> {
    match env.explicit_platform {
        Some(p) => {
            let lp = lower_of(p@);
            if lp == "gitea"@ || lp == "forgejo"@ {
                match (env.gitea_url, env.gitea_token) {
                    (Some(u), Some(t)) => Some((Platform::Gitea, spec_stripped(u@), t@)),
                    _ => None,
                }
            } else if lp == "github"@ {
                match (env.github_token, env.gitea_token) {
                    (Some(t), _) => Some((Platform::GitHub, spec_github_base(env.github_url), t@)),
                    (None, Some(t)) => Some(
                        (Platform::GitHub, spec_github_base(env.github_url), t@),
                    ),
                    (None, None) => None,
                }
            } else {
                None
            }
        },
        None => {
            if env.github_token is Some && env.gitea_url is None && env.gitea_token is None {
                Some(
                    (
                        Platform::GitHub,
                        spec_github_base(env.github_url),
                        env.github_token->Some_0@,
                    ),
                )
            } else {
                match (env.github_token, env.gitea_url, env.gitea_token) {
                    (Some(gh), Some(u), Some(t)) => match spec_detect_signal(env, u@) {
                        Some(Platform::GitHub) => Some(
                            (Platform::GitHub, spec_github_base(env.github_url), gh@),
                        ),
                        Some(Platform::Gitea) => Some((Platform::Gitea, spec_stripped(u@), t@)),
                        None => None,
                    },
                    _ => match (env.gitea_url, env.gitea_token) {
                        (Some(u), Some(t)) => Some((Platform::Gitea, spec_stripped(u@), t@)),
                        _ => None,
                    },
                }
            }
        },
    }
}

/// The message resolution fails with, case by case.
pub open spec fn spec_resolve_err(env: EnvSignals) -> Seq<char> {
    match env.explicit_platform {
        Some(p) => {
            let lp = lower_of(p@);
            if lp == "gitea"@ || lp == "forgejo"@ {
                if env.gitea_url is None {
                    "GIT_PLATFORM=gitea but GITEA_URL (or FORGEJO_REMOTE_URL) is not set"@
                } else {
                    "GIT_PLATFORM=gitea but GITEA_TOKEN (or FORGEJO_AUTH_TOKEN) is not set"@
                }
            } else if lp == "github"@ {
                "GIT_PLATFORM=github but GITHUB_TOKEN is not set"@
            } else {
                "GIT_PLATFORM="@ + p@
                    + " is not recognized. Use 'gitea', 'forgejo', or 'github'."@
            }
        },
        None => {
            if env.github_token is Some && env.gitea_url is Some && env.gitea_token is Some {
                "Both GITHUB_TOKEN and GITEA_URL/GITEA_TOKEN are set. Set GIT_PLATFORM=github or GIT_PLATFORM=gitea to disambiguate."@
            } else {
                "No git platform credentials found. Set GITEA_URL + GITEA_TOKEN for Gitea/Forgejo, or GITHUB_TOKEN for GitHub."@
            }
        },
    }
}

fn stripped(u: &str) -> (r: String)
    ensures
        r@ == spec_stripped(u@),
{
    String::from_str(trim_end_char(u, '/'))
}

fn github_base(github_url: &Option<String>) -> (r: String)
    ensures
        r@ == spec_github_base(*github_url),
{
    match github_url {
        Some(u) => stripped(u.as_str()),
        None => String::from_str("https://github.com"),
    }
}

impl Config {
    /// Resolve a configuration from environment signals, or fail with a
    /// message naming exactly what is missing or ambiguous.
    pub fn resolve(env: &EnvSignals) -> (r: Result<Config, GitxError>)
        ensures
            match r {
                Ok(c) => spec_resolve_config(*env) == Some((c.platform, c.base_url@, c.token@)),
                Err(e) => {
                    &&& spec_resolve_config(*env) is None
                    &&& e matches GitxError::MissingParam(m) && m@ == spec_resolve_err(*env)
                },
            },
    {
        if let Some(p) = &env.explicit_platform {
            let lp = lowercase(p.as_str());
            if str_eq(lp.as_str(), "gitea") || str_eq(lp.as_str(), "forgejo") {
                let base = match &env.gitea_url {
                    Some(u) => stripped(u.as_str()),
                    None => {
                        return Err(
                            GitxError::MissingParam(
                                String::from_str(
                                    "GIT_PLATFORM=gitea but GITEA_URL (or FORGEJO_REMOTE_URL) is not set",
                                ),
                            ),
                        );
                    },
                };
                let token = match &env.gitea_token {
                    Some(t) => t.clone(),
                    None => {
                        return Err(
                            GitxError::MissingParam(
                                String::from_str(
                                    "GIT_PLATFORM=gitea but GITEA_TOKEN (or FORGEJO_AUTH_TOKEN) is not set",
                                ),
                            ),
                        );
                    },
                };
                return Ok(Config { base_url: base, token, platform: Platform::Gitea });
            }
            if str_eq(lp.as_str(), "github") {
                let token = match &env.github_token {
                    Some(t) => t.clone(),
                    None => match &env.gitea_token {
                        Some(t) => t.clone(),
                        None => {
                            return Err(
                                GitxError::MissingParam(
                                    String::from_str(
                                        "GIT_PLATFORM=github but GITHUB_TOKEN is not set",
                                    ),
                                ),
                            );
                        },
                    },
                };
                return Ok(
                    Config {
                        base_url: github_base(&env.github_url),
                        token,
                        platform: Platform::GitHub,
                    },
                );
            }
            let mut m = String::from_str("GIT_PLATFORM=");
            m.append(p.as_str());
            m.append(" is not recognized. Use 'gitea', 'forgejo', or 'github'.");
            return Err(GitxError::MissingParam(m));
        }
        let github_only = env.github_token.is_some() && env.gitea_url.is_none()
            && env.gitea_token.is_none();
        if github_only {
            let token = match &env.github_token {
                Some(t) => t.clone(),
                None => String::new(),
            };
            return Ok(
                Config {
                    base_url: github_base(&env.github_url),
                    token,
                    platform: Platform::GitHub,
                },
            );
        }
        if env.github_token.is_some() && env.gitea_url.is_some() && env.gitea_token.is_some() {
            let gitea_url_str: &String = match &env.gitea_url {
                Some(u) => u,
                None => unreached(),
            };
            let detected = match &env.remote_url {
                Some(r) => detect_platform_from_remote(r.as_str(), gitea_url_str.as_str()),
                None => None,
            };
            match detected {
                Some(Platform::GitHub) => {
                    let token = match &env.github_token {
                        Some(t) => t.clone(),
                        None => unreached(),
                    };
                    return Ok(
                        Config {
                            base_url: github_base(&env.github_url),
                            token,
                            platform: Platform::GitHub,
                        },
                    );
                },
                Some(Platform::Gitea) => {
                    let token = match &env.gitea_token {
                        Some(t) => t.clone(),
                        None => unreached(),
                    };
                    return Ok(
                        Config {
                            base_url: stripped(gitea_url_str.as_str()),
                            token,
                            platform: Platform::Gitea,
                        },
                    );
                },
                None => {
                    return Err(
                        GitxError::MissingParam(
                            String::from_str(
                                "Both GITHUB_TOKEN and GITEA_URL/GITEA_TOKEN are set. Set GIT_PLATFORM=github or GIT_PLATFORM=gitea to disambiguate.",
                            ),
                        ),
                    );
                },
            }
        }
        if env.gitea_url.is_some() && env.gitea_token.is_some() {
            let base = match &env.gitea_url {
                Some(u) => stripped(u.as_str()),
                None => unreached(),
            };
            let token = match &env.gitea_token {
                Some(t) => t.clone(),
                None => unreached(),
            };
            return Ok(Config { base_url: base, token, platform: Platform::Gitea });
        }
        Err(
            GitxError::MissingParam(
                String::from_str(
                    "No git platform credentials found. Set GITEA_URL + GITEA_TOKEN for Gitea/Forgejo, or GITHUB_TOKEN for GitHub.",
                ),
            ),
        )
    }
}

} // verus!
