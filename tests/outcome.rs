use artifact_notify::text::{join, render_decimal};
use artifact_notify::{graphql_outcome, report, rest_outcome, NotifyError};

#[test]
fn rest_ok_is_silent() {
    let r = rest_outcome(200);
    assert!(r.is_ok());
    assert_eq!(report(&r), (0, None));
}

#[test]
fn rest_503_names_status() {
    let r = rest_outcome(503);
    assert!(matches!(r, Err(NotifyError::HttpStatus(503))));
    let (code, line) = report(&r);
    assert_eq!(code, 1);
    let line = line.unwrap();
    assert!(line.contains("503"));
    assert_eq!(line, "Failed to register docker image push: server responded with http status 503.");
}

#[test]
fn rest_other_success_codes_fail() {
    assert!(matches!(rest_outcome(201), Err(NotifyError::HttpStatus(201))));
    assert!(matches!(rest_outcome(204), Err(NotifyError::HttpStatus(204))));
}

#[test]
fn graphql_ok_without_errors_is_silent() {
    let r = graphql_outcome(200, Ok(vec![]));
    assert_eq!(report(&r), (0, None));
}

#[test]
fn graphql_503_names_status() {
    let r = graphql_outcome(503, Ok(vec!["ignored".to_string()]));
    let (code, line) = report(&r);
    assert_eq!(code, 1);
    assert!(line.unwrap().contains("503"));
}

#[test]
fn graphql_error_message_is_reported() {
    let r = graphql_outcome(200, Ok(vec!["bad input".to_string()]));
    let (code, line) = report(&r);
    assert_eq!(code, 1);
    let line = line.unwrap();
    assert!(line.contains("bad input"));
    assert_eq!(line, "Failed to register docker image push: graphql errors: bad input.");
}

#[test]
fn graphql_errors_are_joined() {
    let r = graphql_outcome(200, Ok(vec!["first".to_string(), "second".to_string()]));
    let (_, line) = report(&r);
    assert_eq!(line.unwrap(), "Failed to register docker image push: graphql errors: first, second.");
}

#[test]
fn graphql_undecodable_body_fails() {
    let r = graphql_outcome(200, Err("expected value at line 1".to_string()));
    assert!(matches!(r, Err(NotifyError::MalformedResponse(_))));
    let e = r.unwrap_err();
    assert!(!e.is_invalid_input());
    assert_eq!(e.details(), "malformed response body: expected value at line 1");
}

#[test]
fn transport_failure_is_api_error() {
    let e = NotifyError::Transport("connection refused".to_string());
    assert!(!e.is_invalid_input());
    assert_eq!(report(&Err(e)), (1, Some("Failed to register docker image push: request failed: connection refused.".to_string())));
}

#[test]
fn invalid_arguments_is_invalid_input() {
    let e = NotifyError::InvalidArguments("unexpected argument '--foo'".to_string());
    assert!(e.is_invalid_input());
    assert_eq!(e.diagnostic(), "Invalid input: invalid arguments: unexpected argument '--foo'.");
}

#[test]
fn decimal_rendering() {
    assert_eq!(render_decimal(0), "0");
    assert_eq!(render_decimal(7), "7");
    assert_eq!(render_decimal(10), "10");
    assert_eq!(render_decimal(200), "200");
    assert_eq!(render_decimal(503), "503");
    assert_eq!(render_decimal(65535), "65535");
}

#[test]
fn joining() {
    assert_eq!(join(&vec![], ", "), "");
    assert_eq!(join(&vec!["a".to_string()], ", "), "a");
    assert_eq!(join(&vec!["a".to_string(), "b".to_string(), "c".to_string()], "; "), "a; b; c");
}
