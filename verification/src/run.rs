//! One run of untrusted code in a container, as a state machine: create the
//! container, start it, attach to it, stream the input in and the output out.
//! The machine decides; the caller performs each action and reports what
//! came of it.

use crate::container::{default_container_config, default_container_spec};
use crate::error::{Error, Failure, Phase};
use crate::json::{json_text, EncodeError, JsonValue};
use crate::reply::{
    attach_container, container_created, container_started, created_outcome, output_outcome,
    read_output, reply_failure, Reply,
};
use crate::request::{
    attach_container_request, attach_request_spec, create_container, create_request_spec,
    start_container, start_request_spec, Request,
};
use crate::wire::container_json;
use crate::stream::{result_view, StreamResult};
use vstd::prelude::*;

verus! {

/// Where a run stands.
#[derive(Debug, PartialEq, Eq)]
pub enum State {
    /// The run exists; the container is still to be created.
    Created { image: String, payload: Vec<u8> },
    /// The container `id` exists and is to be started.
    Started { id: String, payload: Vec<u8> },
    /// The container runs and is to be attached to.
    Attached { id: String, payload: Vec<u8> },
    /// The attach session is open: the payload is to be written to it, and
    /// the stream to be read to its end.
    Streaming { payload: Vec<u8> },
    /// The run is over, with its classified output.
    Done(StreamResult),
    /// The run failed.
    Failed(Error),
}

/// Where a run stands, as a mathematical value.
pub enum Stage {
    Created { image: Seq<char>, payload: Seq<u8> },
    Started { id: Seq<char>, payload: Seq<u8> },
    Attached { id: Seq<char>, payload: Seq<u8> },
    Streaming { payload: Seq<u8> },
    Done(Result<Seq<u8>, Seq<u8>>),
    Failed(Failure),
}

impl View for State {
    type V = Stage;

    open spec fn view(&self) -> Stage {
        match self {
            State::Created { image, payload } => Stage::Created {
                image: image@,
                payload: payload@,
            },
            State::Started { id, payload } => Stage::Started { id: id@, payload: payload@ },
            State::Attached { id, payload } => Stage::Attached { id: id@, payload: payload@ },
            State::Streaming { payload } => Stage::Streaming { payload: payload@ },
            State::Done(result) => Stage::Done(result_view(*result)),
            State::Failed(error) => Stage::Failed(error@),
        }
    }
}

/// What the caller reports back.
#[derive(Debug, PartialEq, Eq)]
pub enum Event {
    /// The reply to the request that was to be sent.
    Replied(Reply<Option<JsonValue>>),
    /// The stream of the attach session, read to its end, or the read that
    /// failed.
    Streamed(Result<Vec<u8>, String>),
}

/// What the caller is to do next.
#[derive(Debug, PartialEq, Eq)]
pub enum Action {
    /// Open a connection, send the request, read the answer to the end of
    /// the connection, and report the reply.
    Exchange(Request),
    /// Open a connection, send the request, read the head of the answer,
    /// keep the connection, and report the reply.
    Attach(Request),
    /// Write the payload to the attach session, read the stream to its end,
    /// and report it.
    Stream(Vec<u8>),
    /// Nothing: the run is over.
    Stop,
}

impl Stage {
    /// The phase that a stage works on; the stream phase once the run is
    /// over.
    pub open spec fn phase(self) -> Phase {
        match self {
            Stage::Created { .. } => Phase::Create,
            Stage::Started { .. } => Phase::Start,
            Stage::Attached { .. } => Phase::Attach,
            _ => Phase::Stream,
        }
    }

    /// Whether the run is over.
    pub open spec fn is_over(self) -> bool {
        self is Done || self is Failed
    }

    /// How far the run has come.
    pub open spec fn rank(self) -> int {
        match self {
            Stage::Created { .. } => 0,
            Stage::Started { .. } => 1,
            Stage::Attached { .. } => 2,
            Stage::Streaming { .. } => 3,
            _ => 4,
        }
    }

    /// Whether the container identifier that the stage holds, if it holds
    /// one, is not empty.
    pub open spec fn well_formed(self) -> bool {
        match self {
            Stage::Started { id, .. } => id.len() > 0,
            _ => true,
        }
    }
}

/// What is said of an event that the stage did not wait for.
pub open spec fn unexpected_event() -> Seq<char> {
    "an event that the step did not wait for"@
}

/// The stage that follows `stage` on `event`. A stage that is over stays. A
/// stage that waits for a reply takes the step that the reply allows, or
/// fails with what the reply amounts to in its phase. The streaming stage ends
/// the run with the classified output, or fails. An event of the other kind
/// fails the run.
pub open spec fn next_stage(stage: Stage, event: Event) -> Stage {
    match (stage, event) {
        (Stage::Done(_), _) => stage,
        (Stage::Failed(_), _) => stage,
        (Stage::Created { image, payload }, Event::Replied(reply)) => match created_outcome(reply) {
            Ok(handle) => Stage::Started { id: handle.id, payload },
            Err(failure) => Stage::Failed(failure),
        },
        (Stage::Started { id, payload }, Event::Replied(reply)) => match reply_failure(
            Phase::Start,
            reply,
        ) {
            None => Stage::Attached { id, payload },
            Some(failure) => Stage::Failed(failure),
        },
        (Stage::Attached { id, payload }, Event::Replied(reply)) => match reply_failure(
            Phase::Attach,
            reply,
        ) {
            None => Stage::Streaming { payload },
            Some(failure) => Stage::Failed(failure),
        },
        (Stage::Streaming { payload }, Event::Streamed(stream)) => match output_outcome(stream) {
            Ok(result) => Stage::Done(result),
            Err(failure) => Stage::Failed(failure),
        },
        _ => Stage::Failed(Failure::Decode(stage.phase(), unexpected_event())),
    }
}

/// One run. Its state can be read, and changes only by `advance`.
#[derive(Debug, PartialEq, Eq)]
pub struct Run {
    state: State,
}

impl View for Run {
    type V = Stage;

    closed spec fn view(&self) -> Stage {
        self.state@
    }
}

impl Run {
    /// The invariant of the type: a container identifier, where the state
    /// holds one to start, is not empty.
    #[verifier::type_invariant]
    pub closed spec fn inv(&self) -> bool {
        self@.well_formed()
    }

    /// A run of `payload` on `image`, with nothing done yet.
    pub fn new(image: String, payload: Vec<u8>) -> (run: Run)
        ensures
            run@ == (Stage::Created { image: image@, payload: payload@ }),
    {
        Run { state: State::Created { image, payload } }
    }

    /// Where the run stands.
    pub fn state(&self) -> (state: &State)
        ensures
            state@ == self@,
            self@.well_formed(),
    {
        proof {
            use_type_invariant(self);
        }
        &self.state
    }

    /// What the caller is to do next. While the container is still to be
    /// created, the create request is built here; that fails where the JSON
    /// encoder fails on a string of the configuration, and nothing else
    /// does.
    pub fn action(&self) -> (r: Result<Action, EncodeError>)
        ensures
            match self@ {
                Stage::Created { image, .. } => match json_text(
                    container_json(default_container_spec(image)),
                ) {
                    Some(body) => r matches Ok(Action::Exchange(request)) && request@
                        == create_request_spec(body),
                    None => r is Err,
                },
                Stage::Started { id, .. } => r matches Ok(Action::Exchange(request)) && request@
                    == start_request_spec(id),
                Stage::Attached { id, .. } => r matches Ok(Action::Attach(request)) && request@
                    == attach_request_spec(id),
                Stage::Streaming { payload } => r matches Ok(Action::Stream(bytes)) && bytes@
                    == payload,
                _ => r matches Ok(Action::Stop),
            },
    {
        proof {
            use_type_invariant(self);
        }
        match &self.state {
            State::Created { image, .. } => {
                let config = default_container_config(image.clone());
                match create_container(&config) {
                    Ok(request) => Ok(Action::Exchange(request)),
                    Err(e) => Err(e),
                }
            },
            State::Started { id, .. } => Ok(Action::Exchange(start_container(id.as_str()))),
            State::Attached { id, .. } => Ok(
                Action::Attach(attach_container_request(id.as_str())),
            ),
            State::Streaming { payload } => Ok(Action::Stream(payload.clone())),
            _ => Ok(Action::Stop),
        }
    }

    /// What the run came to, once it is over: its classified output or its
    /// failure. None while the run is not over.
    pub fn into_outcome(self) -> (r: Option<Result<StreamResult, Error>>)
        ensures
            match self@ {
                Stage::Done(result) => r matches Some(Ok(output)) && result_view(output) == result,
                Stage::Failed(failure) => r matches Some(Err(e)) && e@ == failure,
                _ => r is None,
            },
    {
        match self.state {
            State::Done(result) => Some(Ok(result)),
            State::Failed(error) => Some(Err(error)),
            _ => None,
        }
    }

    /// Takes the run to the stage that follows on `event`.
    pub fn advance(self, event: Event) -> (next: Run)
        ensures
            next@ == next_stage(self@, event),
    {
        let state = match (self.state, event) {
            (State::Done(result), _) => State::Done(result),
            (State::Failed(error), _) => State::Failed(error),
            (State::Created { image, payload }, Event::Replied(reply)) => {
                match container_created(reply) {
                    Ok(handle) => State::Started { id: handle.id().to_string(), payload },
                    Err(e) => State::Failed(e),
                }
            },
            (State::Started { id, payload }, Event::Replied(reply)) => {
                match container_started(reply) {
                    Ok(()) => State::Attached { id, payload },
                    Err(e) => State::Failed(e),
                }
            },
            (State::Attached { id, payload }, Event::Replied(reply)) => {
                match attach_container(reply) {
                    Ok(_) => State::Streaming { payload },
                    Err(e) => State::Failed(e),
                }
            },
            (State::Streaming { payload }, Event::Streamed(stream)) => {
                match read_output(stream) {
                    Ok(result) => State::Done(result),
                    Err(e) => State::Failed(e),
                }
            },
            (State::Created { .. }, Event::Streamed(_)) => State::Failed(
                Error::Decode(Phase::Create, "an event that the step did not wait for".to_string()),
            ),
            (State::Started { .. }, Event::Streamed(_)) => State::Failed(
                Error::Decode(Phase::Start, "an event that the step did not wait for".to_string()),
            ),
            (State::Attached { .. }, Event::Streamed(_)) => State::Failed(
                Error::Decode(Phase::Attach, "an event that the step did not wait for".to_string()),
            ),
            (State::Streaming { .. }, Event::Replied(_)) => State::Failed(
                Error::Decode(Phase::Stream, "an event that the step did not wait for".to_string()),
            ),
        };
        Run { state }
    }
}

/// A socket that cannot be opened fails the run in the phase that wanted it,
/// with the code for an unreachable socket, and leaves nothing behind: the
/// failed stage holds no container.
pub proof fn lemma_unreachable_socket_fails_the_run(stage: Stage, reason: String)
    requires
        stage is Created || stage is Started || stage is Attached,
    ensures
        next_stage(stage, Event::Replied(Reply::Unreachable(reason))) == Stage::Failed(
            Failure::UnixStream(stage.phase(), reason@),
        ),
        Failure::UnixStream(stage.phase(), reason@).code() == "socket-unreachable"@,
{
}

/// No step is skipped and none is taken twice: an event leaves a finished
/// run as it is, and takes any other to the next stage in order or to
/// failure. So a container is started only after it was created, and
/// attached to only after it was started.
pub proof fn lemma_steps_in_order(stage: Stage, event: Event)
    ensures
        stage.is_over() ==> next_stage(stage, event) == stage,
        !stage.is_over() ==> next_stage(stage, event) is Failed || next_stage(stage, event).rank()
            == stage.rank() + 1,
{
}

/// A run ends in success only from the streaming stage, and only with what
/// the demultiplexer made of a stream that was read to its end.
pub proof fn lemma_done_comes_from_the_stream(stage: Stage, event: Event)
    requires
        !stage.is_over(),
        next_stage(stage, event) is Done,
    ensures
        stage is Streaming,
        event matches Event::Streamed(stream) && output_outcome(stream) == Ok::<
            Result<Seq<u8>, Seq<u8>>,
            Failure,
        >(next_stage(stage, event)->Done_0),
{
}

} // verus!
