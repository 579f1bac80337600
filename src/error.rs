//! The two kinds of failure and the one-line diagnostic of each.
use vstd::prelude::*;
use crate::text::{decimal, joined, join, render_decimal};

verus! {

/// A required environment variable.
#[derive(Clone, Copy, Debug, PartialEq, Eq, Structural)]
pub enum EnvVar {
    ServerUrl,
    Repository,
    CommitSha,
}

impl EnvVar {
    pub open spec fn spec_name(self) -> Seq<char> {
        match self {
            EnvVar::ServerUrl => "GITHUB_SERVER_URL"@,
            EnvVar::Repository => "GITHUB_REPOSITORY"@,
            EnvVar::CommitSha => "GITHUB_SHA"@,
        }
    }

    /// The variable's name in the process environment.
    pub fn name(&self) -> (r: &'static str)
        ensures
            r@ == self.spec_name(),
    {
        match self {
            EnvVar::ServerUrl => "GITHUB_SERVER_URL",
            EnvVar::Repository => "GITHUB_REPOSITORY",
            EnvVar::CommitSha => "GITHUB_SHA",
        }
    }
}

/// A required command-line flag.
#[derive(Clone, Copy, Debug, PartialEq, Eq, Structural)]
pub enum Flag {
    DockerImage,
    OrgId,
}

impl Flag {
    pub open spec fn spec_name(self) -> Seq<char> {
        match self {
            Flag::DockerImage => "--docker-image"@,
            Flag::OrgId => "--org-id"@,
        }
    }

    /// The flag as written on the command line.
    pub fn name(&self) -> (r: &'static str)
        ensures
            r@ == self.spec_name(),
    {
        match self {
            Flag::DockerImage => "--docker-image",
            Flag::OrgId => "--org-id",
        }
    }
}

/// Why a notification was not registered.
///
/// `MissingEnv`, `MissingFlag`, `InvalidArguments` and `MalformedUrl` are
/// invalid input, found before any network call; the others are failures of
/// the call itself.
#[derive(Debug)]
pub enum NotifyError {
    MissingEnv(EnvVar),
    MissingFlag(Flag),
    InvalidArguments(String),
    MalformedUrl(String),
    UnjoinableUrl(String),
    HttpStatus(u16),
    Transport(String),
    GraphQl(Vec<String>),
    MalformedResponse(String),
}

pub open spec fn category_text(invalid_input: bool) -> Seq<char> {
    if invalid_input {
        "Invalid input"@
    } else {
        "Failed to register docker image push"@
    }
}

impl NotifyError {
    pub open spec fn spec_is_invalid_input(&self) -> bool {
        ||| self is MissingEnv
        ||| self is MissingFlag
        ||| self is InvalidArguments
        ||| self is MalformedUrl
    }

    pub open spec fn spec_details(&self) -> Seq<char> {
        match self {
            NotifyError::MissingEnv(v) => "missing environment variable "@ + v.spec_name(),
            NotifyError::MissingFlag(f) => "missing required flag "@ + f.spec_name(),
            NotifyError::InvalidArguments(s) => "invalid arguments: "@ + s@,
            NotifyError::MalformedUrl(s) => "malformed URL "@ + s@,
            NotifyError::UnjoinableUrl(s) => "cannot resolve the webhook path against "@ + s@,
            NotifyError::HttpStatus(n) => "server responded with http status "@ + decimal(*n as nat),
            NotifyError::Transport(s) => "request failed: "@ + s@,
            NotifyError::GraphQl(msgs) => "graphql errors: "@ + joined(
                msgs@.map_values(|m: String| m@),
                ", "@,
            ),
            NotifyError::MalformedResponse(s) => "malformed response body: "@ + s@,
        }
    }

    /// The single line reported for this failure: `<category>: <details>.`
    pub open spec fn spec_diagnostic(&self) -> Seq<char> {
        category_text(self.spec_is_invalid_input()) + ": "@ + self.spec_details() + "."@
    }

    /// Whether the failure is invalid input, found before any network call.
    pub fn is_invalid_input(&self) -> (r: bool)
        ensures
            r == self.spec_is_invalid_input(),
    {
        match self {
            NotifyError::MissingEnv(_) => true,
            NotifyError::MissingFlag(_) => true,
            NotifyError::InvalidArguments(_) => true,
            NotifyError::MalformedUrl(_) => true,
            _ => false,
        }
    }

    /// What went wrong, without the category.
    pub fn details(&self) -> (r: String)
        ensures
            r@ == self.spec_details(),
    {
        match self {
            NotifyError::MissingEnv(v) => String::from_str("missing environment variable ").concat(
                v.name(),
            ),
            NotifyError::MissingFlag(f) => String::from_str("missing required flag ").concat(f.name()),
            NotifyError::InvalidArguments(s) => String::from_str("invalid arguments: ").concat(
                s.as_str(),
            ),
            NotifyError::MalformedUrl(s) => String::from_str("malformed URL ").concat(s.as_str()),
            NotifyError::UnjoinableUrl(s) => String::from_str(
                "cannot resolve the webhook path against ",
            ).concat(s.as_str()),
            NotifyError::HttpStatus(n) => {
                let digits = render_decimal(*n);
                String::from_str("server responded with http status ").concat(digits.as_str())
            },
            NotifyError::Transport(s) => String::from_str("request failed: ").concat(s.as_str()),
            NotifyError::GraphQl(msgs) => {
                let all = join(msgs, ", ");
                String::from_str("graphql errors: ").concat(all.as_str())
            },
            NotifyError::MalformedResponse(s) => String::from_str("malformed response body: ").concat(
                s.as_str(),
            ),
        }
    }

    /// The one line that reports this failure on the error stream.
    pub fn diagnostic(&self) -> (r: String)
        ensures
            r@ == self.spec_diagnostic(),
    {
        let category = if self.is_invalid_input() {
            "Invalid input"
        } else {
            "Failed to register docker image push"
        };
        let details = self.details();
        String::from_str(category).concat(": ").concat(details.as_str()).concat(".")
    }
}

} // verus!
