//! Assembly of the single outbound request from everything the process was given.
use vstd::prelude::*;
use crate::endpoint::{parsed_url, resolved_url, spec_endpoint, Config};
use crate::error::NotifyError;
use crate::input::{first_missing_env, first_missing_flag, read_input, Transport};
use crate::payload::{pair_view, payload_fields, GitRepositoryProvider, GithubActionArtifactPushPayload};

verus! {

/// The fixed authorization header value of the GraphQL endpoint.
pub const GRAPHQL_AUTHORIZATION: &'static str = "FAKE:acme";

/// The GraphQL document; the payload fields travel as its `input` variable.
pub const REGISTER_MUTATION: &'static str = "mutation RegisterDockerImagePush($input: RegisterDockerImagePushInput!) { registerDockerImagePush(input: $input) { __typename } }";

/// Everything one invocation was given: the transport, the flags, and the
/// environment values (`None` where absent).
#[derive(Debug)]
pub struct RawInputs {
    pub transport: Transport,
    pub docker_image: Option<String>,
    pub org_id: Option<String>,
    pub server_url: Option<String>,
    pub repository: Option<String>,
    pub commit_sha: Option<String>,
    pub url_override: Option<String>,
}

/// The one request to send.
#[derive(Debug)]
pub struct OutboundRequest {
    pub transport: Transport,
    /// The URL that the body is posted to.
    pub url: String,
    /// The `authorization` header value, if the transport sends one.
    pub authorization: Option<String>,
    /// The GraphQL document, for the GraphQL transport.
    pub query: Option<String>,
    /// The notification's (name, value) pairs: the JSON body for REST, the
    /// `input` variable for GraphQL.
    pub fields: Vec<(String, String)>,
}

impl RawInputs {
    /// The fields that the request carries once the inputs are valid.
    pub open spec fn spec_body(&self) -> Seq<(Seq<char>, Seq<char>)> {
        payload_fields(
            self.transport,
            if self.transport == Transport::Rest {
                Some(self.org_id->0@)
            } else {
                None
            },
            self.docker_image->0@,
            GitRepositoryProvider::GitHub,
            self.server_url->0@,
            self.repository->0@,
            self.commit_sha->0@,
        )
    }
}

/// What `prepare` returns for `raw`.
pub open spec fn prepared(raw: RawInputs, r: Result<OutboundRequest, NotifyError>) -> bool {
    match r {
        Ok(req) => {
            &&& first_missing_flag(raw.transport, raw.docker_image, raw.org_id) is None
            &&& first_missing_env(raw.server_url, raw.repository, raw.commit_sha) is None
            &&& parsed_url(resolved_url(raw.transport, raw.url_override)) is Some
            &&& spec_endpoint(
                raw.transport,
                parsed_url(resolved_url(raw.transport, raw.url_override))->0,
            ) == Some(req.url@)
            &&& req.transport == raw.transport
            &&& req.fields@.map_values(|p: (String, String)| pair_view(p)) == raw.spec_body()
            &&& match raw.transport {
                Transport::Rest => req.authorization is None && req.query is None,
                Transport::GraphQl => req.authorization is Some && req.authorization->0@
                    == GRAPHQL_AUTHORIZATION@ && req.query is Some && req.query->0@
                    == REGISTER_MUTATION@,
            }
        },
        Err(e) => match first_missing_flag(raw.transport, raw.docker_image, raw.org_id) {
            Some(f) => e == NotifyError::MissingFlag(f),
            None => match first_missing_env(raw.server_url, raw.repository, raw.commit_sha) {
                Some(v) => e == NotifyError::MissingEnv(v),
                None => match parsed_url(resolved_url(raw.transport, raw.url_override)) {
                    None => {
                        &&& e is MalformedUrl
                        &&& e->MalformedUrl_0@ == resolved_url(raw.transport, raw.url_override)
                    },
                    Some(base) => {
                        &&& spec_endpoint(raw.transport, base) is None
                        &&& e is UnjoinableUrl
                        &&& e->UnjoinableUrl_0@ == base
                    },
                },
            },
        },
    }
}

/// Validates every input and builds the request; on failure nothing is sent.
/// A missing flag or variable, or a configured URL that is not well formed, is
/// invalid input; a REST base that cannot take the webhook path fails the call.
pub fn prepare(raw: RawInputs) -> (r: Result<OutboundRequest, NotifyError>)
    ensures
        prepared(raw, r),
{
    let ghost raw0 = raw;
    let RawInputs {
        transport,
        docker_image,
        org_id,
        server_url,
        repository,
        commit_sha,
        url_override,
    } = raw;
    let (input, env) = read_input(
        transport,
        docker_image,
        org_id,
        server_url,
        repository,
        commit_sha,
    )?;
    let config = Config::try_from_env(transport, url_override)?;
    let url = config.endpoint(transport)?;
    let payload = GithubActionArtifactPushPayload::new(input, env);
    let fields = payload.fields(transport);
    let (authorization, query) = match transport {
        Transport::Rest => (None, None),
        Transport::GraphQl => (
            Some(String::from_str(GRAPHQL_AUTHORIZATION)),
            Some(String::from_str(REGISTER_MUTATION)),
        ),
    };
    assert(payload.spec_fields(transport) == raw0.spec_body());
    Ok(OutboundRequest { transport, url, authorization, query, fields })
}

} // verus!
