//! Mapping of the response to success or failure, and of the outcome to an
//! exit code and diagnostic.
use vstd::prelude::*;
use crate::error::NotifyError;

verus! {

/// The only status that counts as success.
pub const STATUS_OK: u16 = 200;

pub open spec fn spec_rest_outcome(status: u16) -> Result<(), NotifyError> {
    if status == STATUS_OK {
        Ok(())
    } else {
        Err(NotifyError::HttpStatus(status))
    }
}

pub open spec fn spec_graphql_outcome(status: u16, body: Result<Vec<String>, String>) -> Result<
    (),
    NotifyError,
> {
    if status != STATUS_OK {
        Err(NotifyError::HttpStatus(status))
    } else {
        match body {
            Err(reason) => Err(NotifyError::MalformedResponse(reason)),
            Ok(messages) => if messages@.len() == 0 {
                Ok(())
            } else {
                Err(NotifyError::GraphQl(messages))
            },
        }
    }
}

/// The exit code and the diagnostic line (if any) of an outcome.
pub open spec fn spec_report(outcome: Result<(), NotifyError>) -> (i32, Option<Seq<char>>) {
    match outcome {
        Ok(_) => (0, None),
        Err(e) => (1, Some(e.spec_diagnostic())),
    }
}

/// The outcome of a REST call that got a response with `status`.
pub fn rest_outcome(status: u16) -> (r: Result<(), NotifyError>)
    ensures
        r == spec_rest_outcome(status),
{
    if status == STATUS_OK {
        Ok(())
    } else {
        Err(NotifyError::HttpStatus(status))
    }
}

/// The outcome of a GraphQL call that got a response with `status`, whose body
/// decoded to the messages of its `errors` list (empty when it has none) or
/// failed to decode for the given reason.
pub fn graphql_outcome(status: u16, body: Result<Vec<String>, String>) -> (r: Result<(), NotifyError>)
    ensures
        r == spec_graphql_outcome(status, body),
{
    if status != STATUS_OK {
        Err(NotifyError::HttpStatus(status))
    } else {
        match body {
            Err(reason) => Err(NotifyError::MalformedResponse(reason)),
            Ok(messages) => if messages.len() == 0 {
                Ok(())
            } else {
                Err(NotifyError::GraphQl(messages))
            },
        }
    }
}

/// The exit code and the line for the error stream: `0` and nothing on
/// success, `1` and the failure's diagnostic otherwise.
pub fn report(outcome: &Result<(), NotifyError>) -> (r: (i32, Option<String>))
    ensures
        r.0 == spec_report(*outcome).0,
        r.1 is Some == spec_report(*outcome).1 is Some,
        r.1 is Some ==> r.1->0@ == spec_report(*outcome).1->0,
{
    match outcome {
        Ok(_) => (0, None),
        Err(e) => (1, Some(e.diagnostic())),
    }
}

} // verus!
