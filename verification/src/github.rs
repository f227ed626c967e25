//! GitHub access: which token is used.
use vstd::prelude::*;
use crate::text::{chars_of, string_of, push_str, trim, trim_exec};

verus! {

/// An error of a GitHub operation, with the message of its cause.
#[derive(Debug, Clone)]
pub enum GitHubError {
    /// The API call failed.
    Octocrab(String),
    /// No token was found.
    Env(String),
    /// The repository could not be read.
    Git(String),
}

pub open spec fn github_error_text(e: GitHubError) -> Seq<char> {
    match e {
        GitHubError::Octocrab(m) => "GitHub API error: "@ + m@,
        GitHubError::Env(m) => "Environment variable missing: "@ + m@,
        GitHubError::Git(m) => "Git error: "@ + m@,
    }
}

impl GitHubError {
    /// The error as it is shown to the user.
    pub fn message(&self) -> (r: String)
        ensures
            r@ == github_error_text(*self),
    {
        let mut t: Vec<char> = Vec::new();
        match self {
            GitHubError::Octocrab(m) => {
                push_str(&mut t, "GitHub API error: ");
                push_str(&mut t, m.as_str());
            },
            GitHubError::Env(m) => {
                push_str(&mut t, "Environment variable missing: ");
                push_str(&mut t, m.as_str());
            },
            GitHubError::Git(m) => {
                push_str(&mut t, "Git error: ");
                push_str(&mut t, m.as_str());
            },
        }
        string_of(&t)
    }
}

/// The token GitHub is used with: `GITHUB_TOKEN`, else `GH_TOKEN` (as the
/// environment holds them), else what `gh auth token` printed when it
/// succeeded, trimmed and not empty.
pub open spec fn token_of(github_token: Option<Seq<char>>, gh_token: Option<Seq<char>>, gh_cli: Option<Seq<char>>) -> Option<Seq<char>> {
    if github_token is Some {
        github_token
    } else if gh_token is Some {
        gh_token
    } else {
        match gh_cli {
            Some(out) => if trim(out).len() > 0 {
                Some(trim(out))
            } else {
                None
            },
            None => None,
        }
    }
}

/// The GitHub token, or the error that none was found.
pub fn resolve_token(github_token: Option<String>, gh_token: Option<String>, gh_cli: Option<String>) -> (r: Result<String, GitHubError>)
    ensures
        match token_of(
            crate::ai::opt_view(github_token),
            crate::ai::opt_view(gh_token),
            crate::ai::opt_view(gh_cli),
        ) {
            Some(t) => r matches Ok(x) && x@ == t,
            None => r matches Err(GitHubError::Env(m)) && m@ == "environment variable not found"@,
        },
{
    match github_token {
        Some(t) => Ok(t),
        None => match gh_token {
            Some(t) => Ok(t),
            None => {
                match gh_cli {
                    Some(out) => {
                        let t = trim_exec(&chars_of(out.as_str()));
                        if t.len() > 0 {
                            return Ok(string_of(&t));
                        }
                    },
                    None => {},
                }
                Err(GitHubError::Env(String::from_str("environment variable not found")))
            },
        },
    }
}

} // verus!
