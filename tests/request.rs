use std::collections::BTreeMap;

use artifact_notify::request::{GRAPHQL_AUTHORIZATION, REGISTER_MUTATION};
use artifact_notify::{
    prepare, EnvParams, EnvVar, GitRepositoryProvider, GithubActionArtifactPushPayload, InputParams, NotifyError,
    RawInputs, Transport,
};

fn s(v: &str) -> Option<String> {
    Some(v.to_string())
}

fn raw(transport: Transport) -> RawInputs {
    RawInputs {
        transport,
        docker_image: s("ghcr.io/acme/widget@sha256:0123"),
        org_id: s("org-42"),
        server_url: s("https://github.com"),
        repository: s("acme/widget"),
        commit_sha: s("9fceb02d0ae598e95dc970b74767f19372d61af8"),
        url_override: None,
    }
}

fn as_map(fields: &[(String, String)]) -> BTreeMap<String, String> {
    fields.iter().cloned().collect()
}

#[test]
fn rest_request_carries_inputs_unaltered() {
    let req = prepare(raw(Transport::Rest)).unwrap();
    assert_eq!(req.url, "https://deploy.eofsuite.com/connector/webhook/github-actions/artifact-push");
    assert_eq!(req.authorization, None);
    assert_eq!(req.query, None);
    let m = as_map(&req.fields);
    assert_eq!(req.fields.len(), 6);
    assert_eq!(m.len(), 6);
    assert_eq!(m["org_id"], "org-42");
    assert_eq!(m["docker_image_ref"], "ghcr.io/acme/widget@sha256:0123");
    assert_eq!(m["git_repository_provider"], "GIT_HUB");
    assert_eq!(m["git_repository_server_url"], "https://github.com");
    assert_eq!(m["git_repository_full_name"], "acme/widget");
    assert_eq!(m["commit_hash"], "9fceb02d0ae598e95dc970b74767f19372d61af8");
}

#[test]
fn graphql_request_omits_org_id() {
    let req = prepare(raw(Transport::GraphQl)).unwrap();
    assert_eq!(req.url, "https://api.transistor.eof.dev/graphql");
    assert_eq!(req.authorization.as_deref(), Some("FAKE:acme"));
    assert_eq!(req.authorization.as_deref(), Some(GRAPHQL_AUTHORIZATION));
    assert_eq!(req.query.as_deref(), Some(REGISTER_MUTATION));
    assert!(REGISTER_MUTATION.contains("RegisterDockerImagePush"));
    let m = as_map(&req.fields);
    assert_eq!(m.len(), 5);
    assert!(!m.contains_key("orgId"));
    assert!(!m.contains_key("org_id"));
    assert_eq!(m["dockerImageRef"], "ghcr.io/acme/widget@sha256:0123");
    assert_eq!(m["gitRepositoryProvider"], "GIT_HUB");
    assert_eq!(m["gitRepositoryServerUrl"], "https://github.com");
    assert_eq!(m["gitRepositoryFullName"], "acme/widget");
    assert_eq!(m["commitHash"], "9fceb02d0ae598e95dc970b74767f19372d61af8");
}

#[test]
fn missing_env_prevents_request() {
    let mut r = raw(Transport::Rest);
    r.server_url = None;
    let e = prepare(r).unwrap_err();
    assert!(matches!(e, NotifyError::MissingEnv(EnvVar::ServerUrl)));
    assert!(e.diagnostic().contains("GITHUB_SERVER_URL"));
}

#[test]
fn malformed_override_prevents_request() {
    let mut r = raw(Transport::Rest);
    r.url_override = s("::::");
    let e = prepare(r).unwrap_err();
    assert!(matches!(e, NotifyError::MalformedUrl(ref u) if u == "::::"));
    assert!(e.is_invalid_input());
}

#[test]
fn unjoinable_override_fails_the_call() {
    let mut r = raw(Transport::Rest);
    r.url_override = s("mailto:ops@example.com");
    let e = prepare(r).unwrap_err();
    assert!(matches!(e, NotifyError::UnjoinableUrl(_)));
    assert!(!e.is_invalid_input());
    assert_eq!(report_code(e), 1);
}

#[test]
fn unset_env_named_when_set_values_present() {
    let mut r = raw(Transport::GraphQl);
    r.repository = None;
    r.commit_sha = None;
    let e = prepare(r).unwrap_err();
    assert!(matches!(e, NotifyError::MissingEnv(EnvVar::Repository)));
    assert!(e.diagnostic().contains("GITHUB_REPOSITORY"));
}

fn report_code(e: NotifyError) -> i32 {
    artifact_notify::report(&Err(e)).0
}

#[test]
fn override_url_is_used() {
    let mut r = raw(Transport::GraphQl);
    r.url_override = s("http://127.0.0.1:4000/graphql");
    let req = prepare(r).unwrap();
    assert_eq!(req.url, "http://127.0.0.1:4000/graphql");
}

#[test]
fn payload_new_keeps_values() {
    let input = InputParams { docker_image: "img:1".to_string(), org_id: None };
    let env = EnvParams { server_url: "u".to_string(), repository: "o/r".to_string(), commit_sha: "c".to_string() };
    let p = GithubActionArtifactPushPayload::new(input, env);
    assert_eq!(p.docker_image_ref, "img:1");
    assert_eq!(p.git_repository_provider, GitRepositoryProvider::GitHub);
    assert_eq!(p.git_repository_full_name, "o/r");
    assert_eq!(p.commit_hash, "c");
    let f = p.fields(Transport::Rest);
    assert_eq!(f.len(), 5);
    assert_eq!(f[0], ("docker_image_ref".to_string(), "img:1".to_string()));
    assert_eq!(GitRepositoryProvider::GitHub.wire_name(), "GIT_HUB");
}
