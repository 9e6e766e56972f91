use vstd::prelude::*;
use vstd::string::StringExecFns;

verus! {

/// The closed error taxonomy every tool observes. Backend HTTP failures,
/// locator failures and configuration failures are all mapped into exactly
/// these kinds before they reach a caller.
#[derive(Debug, Clone)]
pub enum GitxError {
    /// A non-2xx API response other than the dedicated kinds below;
    /// carries the status and the response body text.
    Api(String),
    /// A 401 or 403 response; the body is discarded and never echoed.
    Auth,
    /// A 404 response; carries the effective request URL.
    NotFound(String),
    /// A required configuration input or parameter is absent or invalid.
    MissingParam(String),
    /// The repository coordinates could not be derived from a directory.
    RepoResolution(String),
    /// The transport layer failed (connection error, or a 2xx body that
    /// could not be parsed as JSON).
    Transport(String),
}

/// The message text of each error kind.
pub open spec fn spec_message(e: GitxError) -> Seq<char> {
    match e {
        GitxError::Api(s) => "API request failed: "@ + s@,
        GitxError::Auth => "Authentication failed - check your API token"@,
        GitxError::NotFound(s) => "Resource not found: "@ + s@,
        GitxError::MissingParam(s) => "Missing required parameter: "@ + s@,
        GitxError::RepoResolution(s) => "Could not resolve repository from directory: "@ + s@,
        GitxError::Transport(s) => "Transport error: "@ + s@,
    }
}

impl GitxError {
    /// Human-readable message for the error, used at the tool boundary.
    pub fn message(&self) -> (r: String)
        ensures
            r@ == spec_message(*self),
    {
        match self {
            GitxError::Api(s) => {
                let mut m = String::from_str("API request failed: ");
                m.append(s.as_str());
                m
            },
            GitxError::Auth => String::from_str("Authentication failed - check your API token"),
            GitxError::NotFound(s) => {
                let mut m = String::from_str("Resource not found: ");
                m.append(s.as_str());
                m
            },
            GitxError::MissingParam(s) => {
                let mut m = String::from_str("Missing required parameter: ");
                m.append(s.as_str());
                m
            },
            GitxError::RepoResolution(s) => {
                let mut m = String::from_str("Could not resolve repository from directory: ");
                m.append(s.as_str());
                m
            },
            GitxError::Transport(s) => {
                let mut m = String::from_str("Transport error: ");
                m.append(s.as_str());
                m
            },
        }
    }

    /// Whether the error belongs to the invalid-parameter class at the tool
    /// boundary (bad caller input), as opposed to the internal class.
    pub fn is_invalid_params(&self) -> (r: bool)
        ensures
            r == (*self matches GitxError::MissingParam(_) || *self matches GitxError::NotFound(
                _,
            ) || *self matches GitxError::Auth),
    {
        match self {
            GitxError::MissingParam(_) => true,
            GitxError::NotFound(_) => true,
            GitxError::Auth => true,
            _ => false,
        }
    }
}

} // verus!
