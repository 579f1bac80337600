//! Properties that relate the library's functions to one another.
use vstd::prelude::*;
use crate::endpoint::{joined_url, parsed_url, resolved_url, ARTIFACT_PUSH_PATH};
use crate::error::{category_text, EnvVar, NotifyError};
use crate::input::{
    env_resolved, first_missing_env, first_missing_flag, first_unset_env, input_resolved,
    set_values_non_empty, EnvParams, InputParams, Transport,
};
use crate::outcome::{spec_graphql_outcome, spec_report, spec_rest_outcome, STATUS_OK};
use crate::payload::{decoded, pair_view};
use crate::request::{prepared, OutboundRequest, RawInputs};
use crate::text::{contains, decimal, joined, lemma_contains_self, lemma_contains_within, lemma_joined_contains};

verus! {

proof fn missing_env_diagnostic_names(var: EnvVar)
    ensures
        NotifyError::MissingEnv(var).spec_is_invalid_input(),
        contains(NotifyError::MissingEnv(var).spec_diagnostic(), var.spec_name()),
{
    let pre = category_text(true) + ": "@ + "missing environment variable "@;
    lemma_contains_self(var.spec_name());
    lemma_contains_within(pre, var.spec_name(), "."@, var.spec_name());
    assert(NotifyError::MissingEnv(var).spec_diagnostic() =~= pre + var.spec_name() + "."@);
}

/// When a required environment variable is unset and every variable that is
/// set holds a value, building the environment parameters fails as invalid
/// input, and the diagnostic names the first unset variable.
pub proof fn unset_env_is_named(
    server_url: Option<String>,
    repository: Option<String>,
    commit_sha: Option<String>,
    r: Result<EnvParams, NotifyError>,
    var: EnvVar,
)
    requires
        set_values_non_empty(server_url, repository, commit_sha),
        first_unset_env(server_url, repository, commit_sha) == Some(var),
        env_resolved(server_url, repository, commit_sha, r),
    ensures
        r is Err,
        r->Err_0.spec_is_invalid_input(),
        contains(r->Err_0.spec_diagnostic(), var.spec_name()),
{
    assert(first_missing_env(server_url, repository, commit_sha) == Some(var));
    missing_env_diagnostic_names(var);
}

/// With the flags in order, an unset required environment variable (every set
/// one holding a value) makes reading the input fail as invalid input, and the
/// diagnostic names the first unset variable.
pub proof fn unset_env_fails_input(
    transport: Transport,
    docker_image: Option<String>,
    org_id: Option<String>,
    server_url: Option<String>,
    repository: Option<String>,
    commit_sha: Option<String>,
    r: Result<(InputParams, EnvParams), NotifyError>,
    var: EnvVar,
)
    requires
        first_missing_flag(transport, docker_image, org_id) is None,
        set_values_non_empty(server_url, repository, commit_sha),
        first_unset_env(server_url, repository, commit_sha) == Some(var),
        input_resolved(transport, docker_image, org_id, server_url, repository, commit_sha, r),
    ensures
        r is Err,
        r->Err_0.spec_is_invalid_input(),
        contains(r->Err_0.spec_diagnostic(), var.spec_name()),
{
    assert(first_missing_env(server_url, repository, commit_sha) == Some(var));
    missing_env_diagnostic_names(var);
}

/// With the flags in order, an unset required environment variable (every set
/// one holding a value) means nothing is sent, the exit code is 1, and the
/// diagnostic names the first unset variable.
pub proof fn unset_env_prevents_request(
    raw: RawInputs,
    r: Result<OutboundRequest, NotifyError>,
    var: EnvVar,
)
    requires
        first_missing_flag(raw.transport, raw.docker_image, raw.org_id) is None,
        set_values_non_empty(raw.server_url, raw.repository, raw.commit_sha),
        first_unset_env(raw.server_url, raw.repository, raw.commit_sha) == Some(var),
        prepared(raw, r),
    ensures
        r is Err,
        r->Err_0.spec_is_invalid_input(),
        spec_report(Err(r->Err_0)).0 == 1,
        contains(spec_report(Err(r->Err_0)).1->0, var.spec_name()),
{
    assert(first_missing_env(raw.server_url, raw.repository, raw.commit_sha) == Some(var));
    missing_env_diagnostic_names(var);
}

/// When the flags are in order but a required environment variable is unset
/// or empty, nothing is sent, the exit code is 1, and the diagnostic names the
/// first such variable.
pub proof fn missing_env_is_named(raw: RawInputs, r: Result<OutboundRequest, NotifyError>, var: EnvVar)
    requires
        first_missing_flag(raw.transport, raw.docker_image, raw.org_id) is None,
        first_missing_env(raw.server_url, raw.repository, raw.commit_sha) == Some(var),
        prepared(raw, r),
    ensures
        r is Err,
        spec_report(Err(r->Err_0)).0 == 1,
        contains(spec_report(Err(r->Err_0)).1->0, var.spec_name()),
{
    missing_env_diagnostic_names(var);
}

/// A well-formed configured URL that cannot take the webhook path fails the
/// REST call rather than the input, once flags and environment are in order.
pub proof fn unjoinable_base_fails_call(raw: RawInputs, r: Result<OutboundRequest, NotifyError>)
    requires
        raw.transport == Transport::Rest,
        first_missing_flag(raw.transport, raw.docker_image, raw.org_id) is None,
        first_missing_env(raw.server_url, raw.repository, raw.commit_sha) is None,
        parsed_url(resolved_url(raw.transport, raw.url_override)) is Some,
        joined_url(
            parsed_url(resolved_url(raw.transport, raw.url_override))->0,
            ARTIFACT_PUSH_PATH@,
        ) is None,
        prepared(raw, r),
    ensures
        r is Err,
        !r->Err_0.spec_is_invalid_input(),
        spec_report(Err(r->Err_0)).0 == 1,
{
}

/// An override URL that does not parse makes the invocation fail as invalid
/// input, so nothing is sent, and the exit code is 1.
pub proof fn malformed_override_fails(raw: RawInputs, r: Result<OutboundRequest, NotifyError>)
    requires
        raw.url_override is Some,
        parsed_url(raw.url_override->0@) is None,
        prepared(raw, r),
    ensures
        r is Err,
        r->Err_0.spec_is_invalid_input(),
        spec_report(Err(r->Err_0)).0 == 1,
{
}

/// A `200 OK` response (for GraphQL, one whose body lists no errors) ends the
/// process with exit code 0 and no output.
pub proof fn success_is_silent(messages: Vec<String>)
    requires
        messages@.len() == 0,
    ensures
        spec_report(spec_rest_outcome(STATUS_OK)) == (0i32, None::<Seq<char>>),
        spec_report(spec_graphql_outcome(STATUS_OK, Ok(messages))) == (0i32, None::<Seq<char>>),
{
}

proof fn status_diagnostic_names_code(status: u16)
    ensures
        contains(NotifyError::HttpStatus(status).spec_diagnostic(), decimal(status as nat)),
{
    let pre = category_text(false) + ": "@ + "server responded with http status "@;
    lemma_contains_self(decimal(status as nat));
    lemma_contains_within(pre, decimal(status as nat), "."@, decimal(status as nat));
    assert(NotifyError::HttpStatus(status).spec_diagnostic() =~= pre + decimal(status as nat)
        + "."@);
}

/// Any status other than `200 OK` fails the call with exit code 1, and the
/// diagnostic carries the status code in decimal.
pub proof fn failed_status_names_code(status: u16, body: Result<Vec<String>, String>)
    requires
        status != STATUS_OK,
    ensures
        spec_report(spec_rest_outcome(status)).0 == 1,
        contains(spec_report(spec_rest_outcome(status)).1->0, decimal(status as nat)),
        spec_report(spec_graphql_outcome(status, body)).0 == 1,
        contains(spec_report(spec_graphql_outcome(status, body)).1->0, decimal(status as nat)),
{
    status_diagnostic_names_code(status);
}

/// A `200 OK` GraphQL response whose body lists errors fails with exit code 1,
/// and the diagnostic carries every error message.
pub proof fn graphql_errors_are_reported(messages: Vec<String>, k: int)
    requires
        0 <= k < messages@.len(),
    ensures
        spec_report(spec_graphql_outcome(STATUS_OK, Ok(messages))).0 == 1,
        contains(spec_report(spec_graphql_outcome(STATUS_OK, Ok(messages))).1->0, messages@[k]@),
{
    let views = messages@.map_values(|m: String| m@);
    let all = joined(views, ", "@);
    assert(views[k] == messages@[k]@);
    lemma_joined_contains(views, ", "@, k);
    let pre = category_text(false) + ": "@ + "graphql errors: "@;
    lemma_contains_within(pre, all, "."@, messages@[k]@);
    assert(NotifyError::GraphQl(messages).spec_diagnostic() =~= pre + all + "."@);
}

/// The body of a prepared request, decoded, holds exactly the notification's
/// fields, each with the flag or environment value it was given, unaltered.
pub proof fn body_carries_inputs(raw: RawInputs, r: Result<OutboundRequest, NotifyError>)
    requires
        prepared(raw, r),
        r is Ok,
    ensures
        raw.transport == Transport::Rest ==> decoded(
            r->Ok_0.fields@.map_values(|p: (String, String)| pair_view(p)),
        ) == map![
            "org_id"@ => raw.org_id->0@,
            "docker_image_ref"@ => raw.docker_image->0@,
            "git_repository_provider"@ => "GIT_HUB"@,
            "git_repository_server_url"@ => raw.server_url->0@,
            "git_repository_full_name"@ => raw.repository->0@,
            "commit_hash"@ => raw.commit_sha->0@,
        ],
        raw.transport == Transport::GraphQl ==> decoded(
            r->Ok_0.fields@.map_values(|p: (String, String)| pair_view(p)),
        ) == map![
            "dockerImageRef"@ => raw.docker_image->0@,
            "gitRepositoryProvider"@ => "GIT_HUB"@,
            "gitRepositoryServerUrl"@ => raw.server_url->0@,
            "gitRepositoryFullName"@ => raw.repository->0@,
            "commitHash"@ => raw.commit_sha->0@,
        ],
{
    let body = raw.spec_body();
    reveal_with_fuel(decoded, 7);
    assert(body.drop_last().drop_last().drop_last().drop_last().drop_last().drop_last().len() == 0
        || body.drop_last().drop_last().drop_last().drop_last().drop_last().len() == 0);
    if raw.transport == Transport::Rest {
        assert(body.drop_last().drop_last().drop_last().drop_last().drop_last().drop_last() =~= seq![]);
    } else {
        assert(body.drop_last().drop_last().drop_last().drop_last().drop_last() =~= seq![]);
    }
}

} // verus!
