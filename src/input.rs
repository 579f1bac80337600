//! Resolution of the command-line flags and required environment variables.
use vstd::prelude::*;
use crate::error::{EnvVar, Flag, NotifyError};

verus! {

/// How the notification travels to the backend.
#[derive(Clone, Copy, Debug, PartialEq, Eq, Structural)]
pub enum Transport {
    /// A JSON body posted to a fixed path under the deployment base URL.
    Rest,
    /// A GraphQL mutation posted to the GraphQL endpoint.
    GraphQl,
}

/// A raw value counts as supplied only when it is set and not empty.
pub open spec fn supplied(v: Option<String>) -> bool {
    v is Some && v->0@.len() > 0
}

/// The values read from the command line.
#[derive(Debug)]
pub struct InputParams {
    pub docker_image: String,
    /// Present for the REST transport only.
    pub org_id: Option<String>,
}

/// The values read from the CI environment.
#[derive(Debug)]
pub struct EnvParams {
    pub server_url: String,
    pub repository: String,
    pub commit_sha: String,
}

fn require_env(var: EnvVar, value: Option<String>) -> (r: Result<String, NotifyError>)
    ensures
        supplied(value) ==> r == Ok::<String, NotifyError>(value->0),
        !supplied(value) ==> r == Err::<String, NotifyError>(NotifyError::MissingEnv(var)),
{
    match value {
        Some(s) => {
            if s.as_str().is_empty() {
                Err(NotifyError::MissingEnv(var))
            } else {
                Ok(s)
            }
        },
        None => Err(NotifyError::MissingEnv(var)),
    }
}

fn require_flag(flag: Flag, value: Option<String>) -> (r: Result<String, NotifyError>)
    ensures
        supplied(value) ==> r == Ok::<String, NotifyError>(value->0),
        !supplied(value) ==> r == Err::<String, NotifyError>(NotifyError::MissingFlag(flag)),
{
    match value {
        Some(s) => {
            if s.as_str().is_empty() {
                Err(NotifyError::MissingFlag(flag))
            } else {
                Ok(s)
            }
        },
        None => Err(NotifyError::MissingFlag(flag)),
    }
}

/// The first required environment variable, in reading order, that is not supplied.
pub open spec fn first_missing_env(
    server_url: Option<String>,
    repository: Option<String>,
    commit_sha: Option<String>,
) -> Option<EnvVar> {
    if !supplied(server_url) {
        Some(EnvVar::ServerUrl)
    } else if !supplied(repository) {
        Some(EnvVar::Repository)
    } else if !supplied(commit_sha) {
        Some(EnvVar::CommitSha)
    } else {
        None
    }
}

/// The first required flag of `transport` that is not supplied.
pub open spec fn first_missing_flag(
    transport: Transport,
    docker_image: Option<String>,
    org_id: Option<String>,
) -> Option<Flag> {
    if !supplied(docker_image) {
        Some(Flag::DockerImage)
    } else if transport == Transport::Rest && !supplied(org_id) {
        Some(Flag::OrgId)
    } else {
        None
    }
}

/// The first required environment variable, in reading order, that is not set at all.
pub open spec fn first_unset_env(
    server_url: Option<String>,
    repository: Option<String>,
    commit_sha: Option<String>,
) -> Option<EnvVar> {
    if server_url is None {
        Some(EnvVar::ServerUrl)
    } else if repository is None {
        Some(EnvVar::Repository)
    } else if commit_sha is None {
        Some(EnvVar::CommitSha)
    } else {
        None
    }
}

/// Every required environment variable that is set holds a non-empty value.
pub open spec fn set_values_non_empty(
    server_url: Option<String>,
    repository: Option<String>,
    commit_sha: Option<String>,
) -> bool {
    &&& server_url is Some ==> server_url->0@.len() > 0
    &&& repository is Some ==> repository->0@.len() > 0
    &&& commit_sha is Some ==> commit_sha->0@.len() > 0
}

/// What `EnvParams::try_from_env` returns for the given values.
pub open spec fn env_resolved(
    server_url: Option<String>,
    repository: Option<String>,
    commit_sha: Option<String>,
    r: Result<EnvParams, NotifyError>,
) -> bool {
    match first_missing_env(server_url, repository, commit_sha) {
        Some(v) => r matches Err(e) && e == NotifyError::MissingEnv(v),
        None => r matches Ok(p) && p.server_url == server_url->0 && p.repository == repository->0
            && p.commit_sha == commit_sha->0,
    }
}

/// What `read_input` returns for the given values.
pub open spec fn input_resolved(
    transport: Transport,
    docker_image: Option<String>,
    org_id: Option<String>,
    server_url: Option<String>,
    repository: Option<String>,
    commit_sha: Option<String>,
    r: Result<(InputParams, EnvParams), NotifyError>,
) -> bool {
    match first_missing_flag(transport, docker_image, org_id) {
        Some(f) => r matches Err(e) && e == NotifyError::MissingFlag(f),
        None => match first_missing_env(server_url, repository, commit_sha) {
            Some(v) => r matches Err(e) && e == NotifyError::MissingEnv(v),
            None => r matches Ok((i, p)) && i.docker_image == docker_image->0 && (transport
                == Transport::Rest ==> i.org_id == org_id) && (transport == Transport::GraphQl
                ==> i.org_id is None) && p.server_url == server_url->0 && p.repository
                == repository->0 && p.commit_sha == commit_sha->0,
        },
    }
}

impl EnvParams {
    /// Builds the environment parameters from the values of `GITHUB_SERVER_URL`,
    /// `GITHUB_REPOSITORY` and `GITHUB_SHA` (`None` where unset).
    pub fn try_from_env(
        server_url: Option<String>,
        repository: Option<String>,
        commit_sha: Option<String>,
    ) -> (r: Result<EnvParams, NotifyError>)
        ensures
            env_resolved(server_url, repository, commit_sha, r),
    {
        let server_url = require_env(EnvVar::ServerUrl, server_url)?;
        let repository = require_env(EnvVar::Repository, repository)?;
        let commit_sha = require_env(EnvVar::CommitSha, commit_sha)?;
        Ok(EnvParams { server_url, repository, commit_sha })
    }
}

/// Checks the flags of `transport`, then the environment, and returns both sets
/// of values. A flag or variable that is unset or empty is reported as missing.
pub fn read_input(
    transport: Transport,
    docker_image: Option<String>,
    org_id: Option<String>,
    server_url: Option<String>,
    repository: Option<String>,
    commit_sha: Option<String>,
) -> (r: Result<(InputParams, EnvParams), NotifyError>)
    ensures
        input_resolved(transport, docker_image, org_id, server_url, repository, commit_sha, r),
{
    let docker_image = require_flag(Flag::DockerImage, docker_image)?;
    let org_id = match transport {
        Transport::Rest => Some(require_flag(Flag::OrgId, org_id)?),
        Transport::GraphQl => None,
    };
    let env = EnvParams::try_from_env(server_url, repository, commit_sha)?;
    Ok((InputParams { docker_image, org_id }, env))
}

} // verus!
