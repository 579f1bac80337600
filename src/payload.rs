//! The artifact push notification record and the fields it puts on the wire.
use vstd::prelude::*;
use crate::input::{EnvParams, InputParams, Transport};

verus! {

/// The hosting service of the source repository.
#[derive(Clone, Copy, Debug, PartialEq, Eq, Structural)]
pub enum GitRepositoryProvider {
    GitHub,
}

impl GitRepositoryProvider {
    pub open spec fn spec_wire_name(self) -> Seq<char> {
        match self {
            GitRepositoryProvider::GitHub => "GIT_HUB"@,
        }
    }

    /// The provider's value on the wire.
    pub fn wire_name(&self) -> (r: &'static str)
        ensures
            r@ == self.spec_wire_name(),
    {
        match self {
            GitRepositoryProvider::GitHub => "GIT_HUB",
        }
    }
}

/// A field name: snake case for the REST body, camel case for the GraphQL input.
pub open spec fn field_name(transport: Transport, snake: Seq<char>, camel: Seq<char>) -> Seq<char> {
    match transport {
        Transport::Rest => snake,
        Transport::GraphQl => camel,
    }
}

/// The fields of the request body, in order, as (name, value) pairs. The
/// organization id is sent by the REST transport only.
pub open spec fn payload_fields(
    transport: Transport,
    org_id: Option<Seq<char>>,
    docker_image_ref: Seq<char>,
    provider: GitRepositoryProvider,
    server_url: Seq<char>,
    full_name: Seq<char>,
    commit_hash: Seq<char>,
) -> Seq<(Seq<char>, Seq<char>)> {
    let common = seq![
        (field_name(transport, "docker_image_ref"@, "dockerImageRef"@), docker_image_ref),
        (
            field_name(transport, "git_repository_provider"@, "gitRepositoryProvider"@),
            provider.spec_wire_name(),
        ),
        (
            field_name(transport, "git_repository_server_url"@, "gitRepositoryServerUrl"@),
            server_url,
        ),
        (
            field_name(transport, "git_repository_full_name"@, "gitRepositoryFullName"@),
            full_name,
        ),
        (field_name(transport, "commit_hash"@, "commitHash"@), commit_hash),
    ];
    if transport == Transport::Rest && org_id is Some {
        seq![("org_id"@, org_id->0)] + common
    } else {
        common
    }
}

/// The JSON object that the (name, value) pairs encode, as a decoder reads it.
pub open spec fn decoded(fields: Seq<(Seq<char>, Seq<char>)>) -> Map<Seq<char>, Seq<char>>
    decreases fields.len(),
{
    if fields.len() == 0 {
        Map::empty()
    } else {
        decoded(fields.drop_last()).insert(fields.last().0, fields.last().1)
    }
}

pub open spec fn pair_view(p: (String, String)) -> (Seq<char>, Seq<char>) {
    (p.0@, p.1@)
}

/// A notification that an image was built and pushed for a commit.
#[derive(Debug)]
pub struct GithubActionArtifactPushPayload {
    pub org_id: Option<String>,
    pub docker_image_ref: String,
    pub git_repository_provider: GitRepositoryProvider,
    pub git_repository_server_url: String,
    pub git_repository_full_name: String,
    pub commit_hash: String,
}

fn pick(transport: Transport, snake: &'static str, camel: &'static str) -> (r: &'static str)
    ensures
        r@ == field_name(transport, snake@, camel@),
{
    match transport {
        Transport::Rest => snake,
        Transport::GraphQl => camel,
    }
}

fn field(name: &str, value: &String) -> (r: (String, String))
    ensures
        pair_view(r) == (name@, value@),
{
    (String::from_str(name), value.clone())
}

impl GithubActionArtifactPushPayload {
    pub open spec fn org_view(&self) -> Option<Seq<char>> {
        match self.org_id {
            Some(s) => Some(s@),
            None => None,
        }
    }

    pub open spec fn spec_fields(&self, transport: Transport) -> Seq<(Seq<char>, Seq<char>)> {
        payload_fields(
            transport,
            self.org_view(),
            self.docker_image_ref@,
            self.git_repository_provider,
            self.git_repository_server_url@,
            self.git_repository_full_name@,
            self.commit_hash@,
        )
    }

    /// The notification for the given command-line and environment values,
    /// each carried over unaltered.
    pub fn new(input: InputParams, env: EnvParams) -> (r: Self)
        ensures
            r.org_id == input.org_id,
            r.docker_image_ref == input.docker_image,
            r.git_repository_provider == GitRepositoryProvider::GitHub,
            r.git_repository_server_url == env.server_url,
            r.git_repository_full_name == env.repository,
            r.commit_hash == env.commit_sha,
    {
        GithubActionArtifactPushPayload {
            org_id: input.org_id,
            docker_image_ref: input.docker_image,
            git_repository_provider: GitRepositoryProvider::GitHub,
            git_repository_server_url: env.server_url,
            git_repository_full_name: env.repository,
            commit_hash: env.commit_sha,
        }
    }

    /// The (name, value) pairs of the request body for `transport`.
    pub fn fields(&self, transport: Transport) -> (r: Vec<(String, String)>)
        ensures
            r@.map_values(|p: (String, String)| pair_view(p)) == self.spec_fields(transport),
    {
        let mut out: Vec<(String, String)> = Vec::new();
        match (&self.org_id, transport) {
            (Some(org), Transport::Rest) => out.push(field("org_id", org)),
            _ => {},
        }
        out.push(field(pick(transport, "docker_image_ref", "dockerImageRef"), &self.docker_image_ref));
        let provider = String::from_str(self.git_repository_provider.wire_name());
        out.push(
            field(
                pick(transport, "git_repository_provider", "gitRepositoryProvider"),
                &provider,
            ),
        );
        out.push(
            field(
                pick(transport, "git_repository_server_url", "gitRepositoryServerUrl"),
                &self.git_repository_server_url,
            ),
        );
        out.push(
            field(
                pick(transport, "git_repository_full_name", "gitRepositoryFullName"),
                &self.git_repository_full_name,
            ),
        );
        out.push(field(pick(transport, "commit_hash", "commitHash"), &self.commit_hash));
        assert(out@.map_values(|p: (String, String)| pair_view(p)) =~= self.spec_fields(transport));
        out
    }
}

} // verus!
