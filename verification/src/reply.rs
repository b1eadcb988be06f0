//! What comes back from one exchange with the engine, and what it means for
//! the step that made the exchange.

use crate::engine::{ContainerCreatedResponse, ContainerHandle, EngineVersion, VersionResponse};
use crate::error::{stream_failure, Error, Failure, Phase};
use crate::json::{Json, JsonValue};
use crate::response::{
    blank_line_at, first_blank_line, parse_head, starts_with_status_line, status_code,
};
use crate::stream::{outcome, parse_frames, read_stream, result_view, StreamResult};
use crate::wire::{handle_of, version_of};
use vstd::prelude::*;
use vstd::slice::slice_to_vec;

verus! {

/// The outcome of sending one request over a fresh connection. `B` is what
/// the body of an answer was read as.
#[derive(Debug, PartialEq, Eq)]
pub enum Reply<B> {
    /// The engine's control socket could not be opened.
    Unreachable(String),
    /// Writing the request or reading the answer failed.
    Broken(String),
    /// What was read is no response.
    Malformed(String),
    /// The engine answered.
    Answer { status: u16, body: B },
}

/// Whether a status code says that the engine did what was asked.
pub open spec fn accepted(status: u16) -> bool {
    200 <= status <= 299
}

/// The failure that a reply amounts to in `phase`, if it is one: an
/// unreachable socket, a broken connection, a malformed response, or an
/// answer whose status is not accepted.
pub open spec fn reply_failure<B>(phase: Phase, reply: Reply<B>) -> Option<Failure> {
    match reply {
        Reply::Unreachable(reason) => Some(Failure::UnixStream(phase, reason@)),
        Reply::Broken(reason) => Some(Failure::Io(phase, reason@)),
        Reply::Malformed(reason) => Some(Failure::Decode(phase, reason@)),
        Reply::Answer { status, body } => if accepted(status) {
            None
        } else {
            Some(Failure::Rejected(phase, status))
        },
    }
}

/// What is said of bytes that are no response.
pub open spec fn no_response_head() -> Seq<char> {
    "the answer does not begin with a response head"@
}

/// What is said of a body that is not JSON.
pub open spec fn body_not_json() -> Seq<char> {
    "the body is not a JSON document"@
}

/// What is said of a JSON body that lacks a field or holds one of another
/// kind.
pub open spec fn unexpected_json() -> Seq<char> {
    "the JSON document lacks a field or holds one of another kind"@
}

/// What is said of a created container without an identifier.
pub open spec fn empty_identifier() -> Seq<char> {
    "the container identifier is empty"@
}

/// Splits the bytes that answered a request into the status and the body.
pub fn received(bytes: &[u8]) -> (reply: Reply<Vec<u8>>)
    ensures
        match reply {
            Reply::Answer { status, body } => {
                &&& starts_with_status_line(bytes@)
                &&& status == status_code(bytes@)
                &&& exists|start: int|
                    first_blank_line(bytes@, start - 4) && body@ == bytes@.skip(start)
            },
            Reply::Malformed(reason) => {
                &&& !starts_with_status_line(bytes@) || forall|j: int| !blank_line_at(bytes@, j)
                &&& reason@ == no_response_head()
            },
            _ => false,
        },
{
    match parse_head(bytes) {
        Some(head) => {
            let body = slice_to_vec(&bytes[head.body_start..bytes.len()]);
            assert(body@ == bytes@.skip(head.body_start as int));
            Reply::Answer { status: head.status, body }
        },
        None => Reply::Malformed("the answer does not begin with a response head".to_string()),
    }
}

/// Tells an accepted answer from every failure: gives the body of the
/// former, and for the latter the failure of `phase` that it amounts to.
pub fn check_reply<B>(phase: Phase, reply: Reply<B>) -> (r: Result<B, Error>)
    ensures
        match r {
            Ok(body) => reply_failure(phase, reply) is None && reply->body == body,
            Err(e) => reply_failure(phase, reply) == Some(e@),
        },
{
    match reply {
        Reply::Unreachable(reason) => Err(Error::UnixStream(phase, reason)),
        Reply::Broken(reason) => Err(Error::Io(phase, reason)),
        Reply::Malformed(reason) => Err(Error::Decode(phase, reason)),
        Reply::Answer { status, body } => {
            if 200 <= status && status <= 299 {
                Ok(body)
            } else {
                Err(Error::Rejected(phase, status))
            }
        },
    }
}

/// The JSON document that an accepted answer carried, or the failure of
/// `phase` that the reply amounts to; an accepted answer whose body is not
/// JSON is a decode failure.
pub open spec fn json_outcome(phase: Phase, reply: Reply<Option<JsonValue>>) -> Result<
    Json,
    Failure,
> {
    match reply_failure(phase, reply) {
        Some(failure) => Err(failure),
        None => match reply->body {
            Some(document) => Ok(document@),
            None => Err(Failure::Decode(phase, body_not_json())),
        },
    }
}

/// What the reply to a version request amounts to.
pub open spec fn version_outcome(reply: Reply<Option<JsonValue>>) -> Result<
    EngineVersion,
    Failure,
> {
    match json_outcome(Phase::Version, reply) {
        Err(failure) => Err(failure),
        Ok(document) => match version_of(document) {
            Some(version) => Ok(version),
            None => Err(Failure::Decode(Phase::Version, unexpected_json())),
        },
    }
}

/// What the reply to a create request amounts to. A handle without an
/// identifier is a decode failure.
pub open spec fn created_outcome(reply: Reply<Option<JsonValue>>) -> Result<
    ContainerHandle,
    Failure,
> {
    match json_outcome(Phase::Create, reply) {
        Err(failure) => Err(failure),
        Ok(document) => match handle_of(document) {
            Some(handle) => if handle.id.len() > 0 {
                Ok(handle)
            } else {
                Err(Failure::Decode(Phase::Create, empty_identifier()))
            },
            None => Err(Failure::Decode(Phase::Create, unexpected_json())),
        },
    }
}

/// What a stream that was read to its end, or that a failed read cut short,
/// amounts to.
pub open spec fn output_outcome(stream: Result<Vec<u8>, String>) -> Result<
    Result<Seq<u8>, Seq<u8>>,
    Failure,
> {
    match stream {
        Err(reason) => Err(Failure::Io(Phase::Stream, reason@)),
        Ok(bytes) => match parse_frames(bytes@) {
            Ok(frames) => Ok(outcome(frames)),
            Err(e) => Err(stream_failure(e)),
        },
    }
}

/// What the reply to an attach request, with the stream that followed its
/// head, amounts to.
pub open spec fn attach_outcome(reply: Reply<Result<Vec<u8>, String>>) -> Result<
    Result<Seq<u8>, Seq<u8>>,
    Failure,
> {
    match reply_failure(Phase::Attach, reply) {
        Some(failure) => Err(failure),
        None => output_outcome(reply->body),
    }
}

fn json_body(phase: Phase, reply: Reply<Option<JsonValue>>) -> (r: Result<JsonValue, Error>)
    ensures
        match r {
            Ok(document) => json_outcome(phase, reply) == Ok::<Json, Failure>(document@),
            Err(e) => json_outcome(phase, reply) == Err::<Json, Failure>(e@),
        },
{
    match check_reply(phase, reply) {
        Err(e) => Err(e),
        Ok(Some(document)) => Ok(document),
        Ok(None) => Err(Error::Decode(phase, "the body is not a JSON document".to_string())),
    }
}

/// Reads the reply to a version request: the engine's version record, or the
/// failure of the version phase.
pub fn version(reply: Reply<Option<JsonValue>>) -> (r: Result<VersionResponse, Error>)
    ensures
        match r {
            Ok(version) => version_outcome(reply) == Ok::<EngineVersion, Failure>(version@),
            Err(e) => version_outcome(reply) == Err::<EngineVersion, Failure>(e@),
        },
{
    let document = match json_body(Phase::Version, reply) {
        Ok(document) => document,
        Err(e) => {
            return Err(e);
        },
    };
    match VersionResponse::from_json(&document) {
        Some(version) => Ok(version),
        None => Err(
            Error::Decode(
                Phase::Version,
                "the JSON document lacks a field or holds one of another kind".to_string(),
            ),
        ),
    }
}

/// Reads the reply to a create request: the handle of the new container,
/// with an identifier that is not empty, or the failure of the create phase.
pub fn container_created(reply: Reply<Option<JsonValue>>) -> (r: Result<
    ContainerCreatedResponse,
    Error,
>)
    ensures
        match r {
            Ok(handle) => created_outcome(reply) == Ok::<ContainerHandle, Failure>(handle@)
                && handle@.id.len() > 0,
            Err(e) => created_outcome(reply) == Err::<ContainerHandle, Failure>(e@),
        },
{
    let document = match json_body(Phase::Create, reply) {
        Ok(document) => document,
        Err(e) => {
            return Err(e);
        },
    };
    match ContainerCreatedResponse::from_json(&document) {
        Some(handle) => {
            if !handle.id().is_empty() {
                Ok(handle)
            } else {
                Err(Error::Decode(Phase::Create, "the container identifier is empty".to_string()))
            }
        },
        None => Err(
            Error::Decode(
                Phase::Create,
                "the JSON document lacks a field or holds one of another kind".to_string(),
            ),
        ),
    }
}

/// Reads the reply to a start request: nothing, or the failure of the start
/// phase.
pub fn container_started<B>(reply: Reply<B>) -> (r: Result<(), Error>)
    ensures
        match r {
            Ok(()) => reply_failure(Phase::Start, reply) is None,
            Err(e) => reply_failure(Phase::Start, reply) == Some(e@),
        },
{
    match check_reply(Phase::Start, reply) {
        Ok(_) => Ok(()),
        Err(e) => Err(e),
    }
}

/// Reads the reply to an attach request: what followed the head of an
/// accepted answer, or the failure of the attach phase.
pub fn attach_container<B>(reply: Reply<B>) -> (r: Result<B, Error>)
    ensures
        match r {
            Ok(body) => reply_failure(Phase::Attach, reply) is None && reply->body == body,
            Err(e) => reply_failure(Phase::Attach, reply) == Some(e@),
        },
{
    check_reply(Phase::Attach, reply)
}

/// Reads the stream of an attach session, as far as it came: the classified
/// output of the run, or the failure of the stream phase. A read that failed
/// is an I/O failure; a stream that breaks the frame format is a decode
/// failure, and nothing of its output is returned.
pub fn read_output(stream: Result<Vec<u8>, String>) -> (r: Result<StreamResult, Error>)
    ensures
        match r {
            Ok(result) => output_outcome(stream) == Ok::<Result<Seq<u8>, Seq<u8>>, Failure>(
                result_view(result),
            ),
            Err(e) => output_outcome(stream) == Err::<Result<Seq<u8>, Seq<u8>>, Failure>(e@),
        },
{
    match stream {
        Err(reason) => Err(Error::Io(Phase::Stream, reason)),
        Ok(bytes) => match read_stream(bytes.as_slice()) {
            Ok(result) => Ok(result),
            Err(e) => Err(Error::from_stream(e)),
        },
    }
}

/// Reads the whole of an attach session, after the request and the payload
/// were sent: the reply to the attach request, whose body is the stream that
/// followed the head. Gives the classified output of the run, or the failure
/// of the attach or the stream phase.
pub fn attach_and_send_payload(reply: Reply<Result<Vec<u8>, String>>) -> (r: Result<
    StreamResult,
    Error,
>)
    ensures
        match r {
            Ok(result) => attach_outcome(reply) == Ok::<Result<Seq<u8>, Seq<u8>>, Failure>(
                result_view(result),
            ),
            Err(e) => attach_outcome(reply) == Err::<Result<Seq<u8>, Seq<u8>>, Failure>(e@),
        },
{
    match attach_container(reply) {
        Ok(stream) => read_output(stream),
        Err(e) => Err(e),
    }
}

} // verus!
