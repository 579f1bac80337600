//! Resolution of the URL that the notification is posted to.
use vstd::prelude::*;
use crate::error::NotifyError;
use crate::input::Transport;

verus! {

/// The serialization of the URL that `url` parses `text` into, if it accepts it.
pub uninterp spec fn parsed_url(text: Seq<char>) -> Option<Seq<char>>;

/// The serialization of `reference` resolved against the URL parsed from `base`,
/// if both steps succeed.
pub uninterp spec fn joined_url(base: Seq<char>, reference: Seq<char>) -> Option<Seq<char>>;

pub open spec fn opt_view(o: Option<String>) -> Option<Seq<char>> {
    match o {
        Some(s) => Some(s@),
        None => None,
    }
}

/// Relies on `url::Url::parse` (re-exported as `reqwest::Url`): whether `text` is a
/// well-formed absolute URL, and the serialization of the parsed URL.
#[verifier::external_body]
fn parse_url(text: &str) -> (r: Option<String>)
    ensures
        opt_view(r) == parsed_url(text@),
{
    reqwest::Url::parse(text).ok().map(String::from)
}

/// Relies on `url::Url::join` (re-exported as `reqwest::Url`), applied to the URL that
/// `url::Url::parse` reads from `base`: the serialization of the resolved URL.
#[verifier::external_body]
fn join_url(base: &str, reference: &str) -> (r: Option<String>)
    ensures
        opt_view(r) == joined_url(base@, reference@),
{
    reqwest::Url::parse(base).ok()?.join(reference).ok().map(String::from)
}

/// Path of the artifact push webhook under the deployment base URL.
pub const ARTIFACT_PUSH_PATH: &'static str = "/connector/webhook/github-actions/artifact-push";

impl Transport {
    pub open spec fn spec_url_variable(self) -> Seq<char> {
        match self {
            Transport::Rest => "EOF_DEPLOY_BASE_URL"@,
            Transport::GraphQl => "T3_GRAPHQL_URL"@,
        }
    }

    pub open spec fn spec_default_url(self) -> Seq<char> {
        match self {
            Transport::Rest => "https://deploy.eofsuite.com"@,
            Transport::GraphQl => "https://api.transistor.eof.dev/graphql"@,
        }
    }

    /// The environment variable that overrides the endpoint.
    pub fn url_variable(&self) -> (r: &'static str)
        ensures
            r@ == self.spec_url_variable(),
    {
        match self {
            Transport::Rest => "EOF_DEPLOY_BASE_URL",
            Transport::GraphQl => "T3_GRAPHQL_URL",
        }
    }

    /// The production URL used when no override is set.
    pub fn default_url(&self) -> (r: &'static str)
        ensures
            r@ == self.spec_default_url(),
    {
        match self {
            Transport::Rest => "https://deploy.eofsuite.com",
            Transport::GraphQl => "https://api.transistor.eof.dev/graphql",
        }
    }
}

/// The configured URL: the override when it is set, else the default.
pub open spec fn resolved_url(transport: Transport, url_override: Option<String>) -> Seq<char> {
    match url_override {
        Some(s) => s@,
        None => transport.spec_default_url(),
    }
}

/// Where the request goes, given the serialization of the configured URL: for
/// REST the webhook path resolved against it, if that succeeds.
pub open spec fn spec_endpoint(transport: Transport, base: Seq<char>) -> Option<Seq<char>> {
    match transport {
        Transport::Rest => joined_url(base, ARTIFACT_PUSH_PATH@),
        Transport::GraphQl => Some(base),
    }
}

/// The configured target of the outbound call.
#[derive(Debug)]
pub struct Config {
    /// The serialization of the configured, well-formed URL.
    pub base_url: String,
}

impl Config {
    /// Reads the configured URL from the override variable's value (`None` where
    /// unset), falling back to the transport's default. A URL that is not well
    /// formed is invalid input.
    pub fn try_from_env(transport: Transport, url_override: Option<String>) -> (r: Result<
        Config,
        NotifyError,
    >)
        ensures
            match parsed_url(resolved_url(transport, url_override)) {
                Some(u) => r matches Ok(c) && c.base_url@ == u,
                None => r matches Err(err) && err is MalformedUrl && err->MalformedUrl_0@
                    == resolved_url(transport, url_override),
            },
    {
        let configured = match url_override {
            Some(s) => s,
            None => String::from_str(transport.default_url()),
        };
        match parse_url(configured.as_str()) {
            Some(base_url) => Ok(Config { base_url }),
            None => Err(NotifyError::MalformedUrl(configured)),
        }
    }

    /// The URL that the request of `transport` is posted to. A REST base that
    /// cannot take the webhook path fails the call.
    pub fn endpoint(&self, transport: Transport) -> (r: Result<String, NotifyError>)
        ensures
            match spec_endpoint(transport, self.base_url@) {
                Some(e) => r matches Ok(u) && u@ == e,
                None => r matches Err(err) && err is UnjoinableUrl && err->UnjoinableUrl_0
                    == self.base_url,
            },
    {
        match transport {
            Transport::Rest => match join_url(self.base_url.as_str(), ARTIFACT_PUSH_PATH) {
                Some(endpoint) => Ok(endpoint),
                None => Err(NotifyError::UnjoinableUrl(self.base_url.clone())),
            },
            Transport::GraphQl => Ok(self.base_url.clone()),
        }
    }
}

} // verus!
