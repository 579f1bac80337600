use artifact_notify::{Config, NotifyError, Transport};

#[test]
fn rest_default_endpoint() {
    let c = Config::try_from_env(Transport::Rest, None).unwrap();
    assert_eq!(c.base_url, "https://deploy.eofsuite.com/");
    assert_eq!(
        c.endpoint(Transport::Rest).unwrap(),
        "https://deploy.eofsuite.com/connector/webhook/github-actions/artifact-push"
    );
}

#[test]
fn rest_override_replaces_path() {
    let c = Config::try_from_env(Transport::Rest, Some("http://localhost:8080/api/".to_string())).unwrap();
    assert_eq!(
        c.endpoint(Transport::Rest).unwrap(),
        "http://localhost:8080/connector/webhook/github-actions/artifact-push"
    );
}

#[test]
fn graphql_default_endpoint() {
    let c = Config::try_from_env(Transport::GraphQl, None).unwrap();
    assert_eq!(c.endpoint(Transport::GraphQl).unwrap(), "https://api.transistor.eof.dev/graphql");
}

#[test]
fn graphql_override_is_normalized() {
    let c = Config::try_from_env(Transport::GraphQl, Some("HTTP://Example.COM".to_string())).unwrap();
    assert_eq!(c.base_url, "http://example.com/");
    assert_eq!(c.endpoint(Transport::GraphQl).unwrap(), "http://example.com/");
}

#[test]
fn malformed_override_is_invalid_input() {
    let e = Config::try_from_env(Transport::Rest, Some("not a url".to_string())).unwrap_err();
    assert!(matches!(e, NotifyError::MalformedUrl(ref u) if u == "not a url"));
    assert!(e.is_invalid_input());
    assert_eq!(e.diagnostic(), "Invalid input: malformed URL not a url.");
}

#[test]
fn malformed_graphql_override_is_invalid_input() {
    let e = Config::try_from_env(Transport::GraphQl, Some(String::new())).unwrap_err();
    assert!(matches!(e, NotifyError::MalformedUrl(_)));
}

#[test]
fn well_formed_base_that_cannot_take_a_path_fails_the_call() {
    let c = Config::try_from_env(Transport::Rest, Some("mailto:ops@example.com".to_string())).unwrap();
    assert_eq!(c.base_url, "mailto:ops@example.com");
    let e = c.endpoint(Transport::Rest).unwrap_err();
    assert!(matches!(e, NotifyError::UnjoinableUrl(ref u) if u == "mailto:ops@example.com"));
    assert!(!e.is_invalid_input());
    assert_eq!(
        e.diagnostic(),
        "Failed to register docker image push: cannot resolve the webhook path against mailto:ops@example.com."
    );
}

#[test]
fn override_variables_and_defaults() {
    assert_eq!(Transport::Rest.url_variable(), "EOF_DEPLOY_BASE_URL");
    assert_eq!(Transport::GraphQl.url_variable(), "T3_GRAPHQL_URL");
    assert_eq!(Transport::Rest.default_url(), "https://deploy.eofsuite.com");
    assert_eq!(Transport::GraphQl.default_url(), "https://api.transistor.eof.dev/graphql");
}
