use vstd::prelude::*;
use vstd::string::StringExecFns;

use crate::error::GitxError;
use crate::platform::Platform;
use crate::request::Method;
use crate::strutil::{spec_u64_string, str_eq, u64_to_string};

verus! {

/// The HTTP verb a planned call uses. The write-without-body verb is the
/// one verb that differs by platform: Gitea expects a POST that returns a
/// changed-state object, GitHub an idempotent re-PUT.
pub fn http_verb(platform: Platform, method: Method) -> (r: &'static str)
    ensures
        match method {
            Method::Get | Method::GetRaw => r@ == "GET"@,
            Method::Post => r@ == "POST"@,
            Method::PostNoContent => match platform {
                Platform::Gitea => r@ == "POST"@,
                Platform::GitHub => r@ == "PUT"@,
            },
            Method::Put => r@ == "PUT"@,
            Method::Patch => r@ == "PATCH"@,
            Method::Delete | Method::DeleteWithBody => r@ == "DELETE"@,
        },
{
    match method {
        Method::Get | Method::GetRaw => "GET",
        Method::Post => "POST",
        Method::PostNoContent => match platform {
            Platform::Gitea => "POST",
            Platform::GitHub => "PUT",
        },
        Method::Put => "PUT",
        Method::Patch => "PATCH",
        Method::Delete | Method::DeleteWithBody => "DELETE",
    }
}

/// The authorization header value each platform expects: a `token` prefix
/// for Gitea/Forgejo, a `Bearer` prefix for GitHub.
pub open spec fn spec_auth_header(platform: Platform, token: Seq<char>) -> Seq<char> {
    match platform {
        Platform::Gitea => "token "@ + token,
        Platform::GitHub => "Bearer "@ + token,
    }
}

/// Build the authorization header value for a platform.
pub fn auth_header_value(platform: Platform, token: &str) -> (r: String)
    ensures
        r@ == spec_auth_header(platform, token@),
{
    match platform {
        Platform::Gitea => {
            let mut s = String::from_str("token ");
            s.append(token);
            s
        },
        Platform::GitHub => {
            let mut s = String::from_str("Bearer ");
            s.append(token);
            s
        },
    }
}

/// The accept header value each platform expects for JSON calls.
pub fn accept_header_value(platform: Platform) -> (r: &'static str)
    ensures
        match platform {
            Platform::Gitea => r@ == "application/json"@,
            Platform::GitHub => r@ == "application/vnd.github+json"@,
        },
{
    match platform {
        Platform::Gitea => "application/json",
        Platform::GitHub => "application/vnd.github+json",
    }
}

/// The accept header value each platform expects for raw text and diff
/// calls; the one place request semantics differ by call type.
pub fn raw_accept_header_value(platform: Platform) -> (r: &'static str)
    ensures
        match platform {
            Platform::Gitea => r@ == "text/plain"@,
            Platform::GitHub => r@ == "application/vnd.github.diff"@,
        },
{
    match platform {
        Platform::Gitea => "text/plain",
        Platform::GitHub => "application/vnd.github.diff",
    }
}

/// The GitHub API version header value sent with every GitHub call.
pub fn api_version_value() -> (r: &'static str)
    ensures
        r@ == "2022-11-28"@,
{
    "2022-11-28"
}

/// The base API URL a platform derives from the configured base URL:
/// Gitea/Forgejo always appends its versioned path; GitHub maps its public
/// hostname to the public API host and anything else to an
/// enterprise-style versioned path.
pub open spec fn spec_api_base(platform: Platform, base_url: Seq<char>) -> Seq<char> {
    match platform {
        Platform::Gitea => base_url + "/api/v1"@,
        Platform::GitHub => if base_url == "https://github.com"@ {
            "https://api.github.com"@
        } else {
            base_url + "/api/v3"@
        },
    }
}

/// Derive the base API URL for a platform.
pub fn api_base(platform: Platform, base_url: &str) -> (r: String)
    ensures
        r@ == spec_api_base(platform, base_url@),
{
    match platform {
        Platform::Gitea => {
            let mut s = String::from_str(base_url);
            s.append("/api/v1");
            s
        },
        Platform::GitHub => {
            if str_eq(base_url, "https://github.com") {
                String::from_str("https://api.github.com")
            } else {
                let mut s = String::from_str(base_url);
                s.append("/api/v3");
                s
            }
        },
    }
}

/// Build the full URL for a request path.
pub fn request_url(base_api: &str, path: &str) -> (r: String)
    ensures
        r@ == base_api@ + path@,
{
    let mut s = String::from_str(base_api);
    s.append(path);
    s
}

/// The detail text of an API failure: status code and response body.
pub open spec fn spec_api_failure(status: u16, body: Seq<char>) -> Seq<char> {
    "HTTP "@ + spec_u64_string(status as int) + ": "@ + body
}

/// The single normalization step every response runs through: 401 and 403
/// become the authentication failure (the body is discarded), 404 becomes
/// not-found carrying the effective URL, any other non-2xx becomes an API
/// failure carrying status and body, and 2xx passes.
pub fn normalize_status(status: u16, url: &str, body: &str) -> (r: Result<(), GitxError>)
    ensures
        match r {
            Ok(_) => 200 <= status < 300,
            Err(e) => match e {
                GitxError::Auth => status == 401 || status == 403,
                GitxError::NotFound(u) => status == 404 && u@ == url@,
                GitxError::Api(m) => {
                    &&& !(200 <= status < 300)
                    &&& status != 401 && status != 403 && status != 404
                    &&& m@ == spec_api_failure(status, body@)
                },
                _ => false,
            },
        },
{
    if status == 401 || status == 403 {
        return Err(GitxError::Auth);
    }
    if status == 404 {
        return Err(GitxError::NotFound(String::from_str(url)));
    }
    if status < 200 || status >= 300 {
        let mut m = String::from_str("HTTP ");
        let num = u64_to_string(status as u64);
        m.append(num.as_str());
        m.append(": ");
        m.append(body);
        return Err(GitxError::Api(m));
    }
    Ok(())
}

} // verus!
