//! The version endpoint at the boundary: what is handed to the layer that
//! answers callers, for a version record and for a failure.

use crate::engine::{EngineVersion, VersionResponse};
use crate::error::{error_code, Error, Failure};
use crate::json::JsonValue;
use crate::reply::{version, version_outcome, Reply};
use vstd::prelude::*;

verus! {

/// The answer of the version endpoint.
#[derive(Debug, PartialEq, Eq)]
pub struct Response {
    /// The versions that the engine reports.
    pub docker: VersionResponse,
}

/// The body of an error answer.
#[derive(Debug, PartialEq, Eq)]
pub struct ErrorBody {
    /// The stable code of the failure.
    pub error: String,
    /// The message of the failure.
    pub message: String,
}

/// An error answer: the HTTP status to give, and the body.
#[derive(Debug, PartialEq, Eq)]
pub struct ErrorResponse {
    pub status_code: u16,
    pub body: ErrorBody,
}

/// The HTTP status of every failure on the engine's side.
pub const ENGINE_FAILURE_STATUS: u16 = 500;

/// Whether `response` is the error answer for `failure`: status 500, the code
/// and the message of the failure.
pub open spec fn answers_failure(response: ErrorResponse, failure: Failure) -> bool {
    &&& response.status_code == ENGINE_FAILURE_STATUS
    &&& response.body.error@ == failure.code()
    &&& response.body.message@ == failure.message()
}

/// The error answer for a failure.
pub fn error_response(error: &Error) -> (response: ErrorResponse)
    ensures
        answers_failure(response, error@),
{
    ErrorResponse {
        status_code: ENGINE_FAILURE_STATUS,
        body: ErrorBody { error: error_code(error), message: error.message() },
    }
}

/// Reads the reply to a version request into the answer of the version
/// endpoint, or into the failure of the version phase.
pub fn docker_version(reply: Reply<Option<JsonValue>>) -> (r: Result<Response, Error>)
    ensures
        match r {
            Ok(response) => version_outcome(reply) == Ok::<EngineVersion, Failure>(
                response.docker@,
            ),
            Err(e) => version_outcome(reply) == Err::<EngineVersion, Failure>(e@),
        },
{
    match version(reply) {
        Ok(data) => Ok(Response { docker: data }),
        Err(e) => Err(e),
    }
}

/// Handles a call of the version endpoint, given the reply that the engine
/// gave to the version request: the version record, or the error answer for
/// the failure.
pub fn handle(reply: Reply<Option<JsonValue>>) -> (r: Result<Response, ErrorResponse>)
    ensures
        match r {
            Ok(response) => version_outcome(reply) == Ok::<EngineVersion, Failure>(
                response.docker@,
            ),
            Err(response) => version_outcome(reply) matches Err(failure) && answers_failure(
                response,
                failure,
            ),
        },
{
    match docker_version(reply) {
        Ok(data) => Ok(data),
        Err(err) => Err(error_response(&err)),
    }
}

} // verus!
