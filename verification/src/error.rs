//! The failures of a run against the engine: each names the phase in which it
//! happened, carries a stable code for machines and a message for people.

use crate::decimal::{decimal_u64, digits};
use crate::stream::StreamError;
use vstd::prelude::*;
use vstd::string::*;

verus! {

/// The step of the work in which something failed.
#[derive(Debug, Clone, Copy, PartialEq, Eq)]
pub enum Phase {
    Version,
    Create,
    Start,
    Attach,
    Stream,
}

/// A failure of one step against the engine.
#[derive(Debug, PartialEq, Eq)]
pub enum Error {
    /// The engine's control socket could not be opened.
    UnixStream(Phase, String),
    /// What came back was no well-formed response, or not the JSON that was
    /// expected, or a stream that breaks the frame format.
    Decode(Phase, String),
    /// The engine answered with a status outside 200 to 299.
    Rejected(Phase, u16),
    /// A read or a write failed.
    Io(Phase, String),
}

/// A failure, as a mathematical value.
pub enum Failure {
    UnixStream(Phase, Seq<char>),
    Decode(Phase, Seq<char>),
    Rejected(Phase, u16),
    Io(Phase, Seq<char>),
}

impl View for Error {
    type V = Failure;

    open spec fn view(&self) -> Failure {
        match self {
            Error::UnixStream(phase, reason) => Failure::UnixStream(*phase, reason@),
            Error::Decode(phase, reason) => Failure::Decode(*phase, reason@),
            Error::Rejected(phase, status) => Failure::Rejected(*phase, *status),
            Error::Io(phase, reason) => Failure::Io(*phase, reason@),
        }
    }
}

impl Failure {
    /// The phase in which the failure happened.
    pub open spec fn phase(self) -> Phase {
        match self {
            Failure::UnixStream(phase, _) => phase,
            Failure::Decode(phase, _) => phase,
            Failure::Rejected(phase, _) => phase,
            Failure::Io(phase, _) => phase,
        }
    }

    /// The stable code of the failure.
    pub open spec fn code(self) -> Seq<char> {
        match self {
            Failure::UnixStream(_, _) => "socket-unreachable"@,
            Failure::Decode(_, _) => "decode-error"@,
            Failure::Rejected(_, _) => "engine-rejected"@,
            Failure::Io(_, _) => "io-error"@,
        }
    }

    /// What went wrong, without the phase.
    pub open spec fn detail(self) -> Seq<char> {
        match self {
            Failure::UnixStream(_, reason) => "Unix socket failure: "@ + reason,
            Failure::Decode(_, reason) => "Malformed answer: "@ + reason,
            Failure::Rejected(_, status) => "The engine answered with status "@ + digits(
                status as nat,
            ),
            Failure::Io(_, reason) => "I/O failure: "@ + reason,
        }
    }

    /// The message of the failure: what was being done, a colon, and what
    /// went wrong.
    pub open spec fn message(self) -> Seq<char> {
        phase_context(self.phase()) + ": "@ + self.detail()
    }
}

/// What was being done in a phase, as messages begin.
pub open spec fn phase_context(phase: Phase) -> Seq<char> {
    match phase {
        Phase::Version => "Failed to get docker version"@,
        Phase::Create => "Failed to create container"@,
        Phase::Start => "Failed to start container"@,
        Phase::Attach => "Failed to attach to container"@,
        Phase::Stream => "Failed to read stream"@,
    }
}

/// What a violation of the frame format is called in a message.
pub open spec fn stream_error_text(error: StreamError) -> Seq<char> {
    match error {
        StreamError::Read(reason) => reason@,
        StreamError::TruncatedHeader => "the stream ended inside a frame header"@,
        StreamError::UnknownChannel(tag) => "unknown channel tag "@ + digits(tag as nat),
        StreamError::TruncatedPayload => "the stream ended inside a frame payload"@,
    }
}

/// The failure that a stream error amounts to: a failed read is an I/O
/// failure, a violation of the frame format is a decode failure, both of the
/// stream phase.
pub open spec fn stream_failure(error: StreamError) -> Failure {
    match error {
        StreamError::Read(reason) => Failure::Io(Phase::Stream, reason@),
        _ => Failure::Decode(Phase::Stream, stream_error_text(error)),
    }
}

impl Phase {
    /// What was being done in this phase, as messages begin.
    pub fn context(&self) -> (r: &'static str)
        ensures
            r@ == phase_context(*self),
    {
        match self {
            Phase::Version => "Failed to get docker version",
            Phase::Create => "Failed to create container",
            Phase::Start => "Failed to start container",
            Phase::Attach => "Failed to attach to container",
            Phase::Stream => "Failed to read stream",
        }
    }
}

impl StreamError {
    /// The error in words.
    pub fn message(&self) -> (r: String)
        ensures
            r@ == stream_error_text(*self),
    {
        match self {
            StreamError::Read(reason) => reason.clone(),
            StreamError::TruncatedHeader => "the stream ended inside a frame header".to_string(),
            StreamError::UnknownChannel(tag) => {
                let mut text = "unknown channel tag ".to_string();
                text.append(decimal_u64(*tag as u64).as_str());
                text
            },
            StreamError::TruncatedPayload => "the stream ended inside a frame payload".to_string(),
        }
    }
}

impl Error {
    /// The failure of the stream phase that a stream error amounts to.
    pub fn from_stream(error: StreamError) -> (r: Error)
        ensures
            r@ == stream_failure(error),
    {
        match error {
            StreamError::Read(reason) => Error::Io(Phase::Stream, reason),
            other => Error::Decode(Phase::Stream, other.message()),
        }
    }

    /// The phase in which the failure happened.
    pub fn phase(&self) -> (r: Phase)
        ensures
            r == self@.phase(),
    {
        match self {
            Error::UnixStream(phase, _) => *phase,
            Error::Decode(phase, _) => *phase,
            Error::Rejected(phase, _) => *phase,
            Error::Io(phase, _) => *phase,
        }
    }

    /// The message of the failure, for people.
    pub fn message(&self) -> (r: String)
        ensures
            r@ == self@.message(),
    {
        let mut text = self.phase().context().to_string();
        text.append(": ");
        match self {
            Error::UnixStream(_, reason) => {
                text.append("Unix socket failure: ");
                text.append(reason.as_str());
            },
            Error::Decode(_, reason) => {
                text.append("Malformed answer: ");
                text.append(reason.as_str());
            },
            Error::Rejected(_, status) => {
                text.append("The engine answered with status ");
                text.append(decimal_u64(*status as u64).as_str());
            },
            Error::Io(_, reason) => {
                text.append("I/O failure: ");
                text.append(reason.as_str());
            },
        }
        assert(text@ == self@.message());
        text
    }
}

/// The stable code of a failure, for machines: one of `socket-unreachable`,
/// `decode-error`, `engine-rejected` and `io-error`.
pub fn error_code(error: &Error) -> (code: String)
    ensures
        code@ == error@.code(),
{
    match error {
        Error::UnixStream(_, _) => "socket-unreachable".to_string(),
        Error::Decode(_, _) => "decode-error".to_string(),
        Error::Rejected(_, _) => "engine-rejected".to_string(),
        Error::Io(_, _) => "io-error".to_string(),
    }
}

} // verus!
