use docker_run::api::{error_response, ErrorBody, ErrorResponse, ENGINE_FAILURE_STATUS};
use docker_run::error::{error_code, Error, Phase};
use docker_run::stream::StreamError;

#[test]
fn every_failure_has_its_stable_code() {
    let reason = || "why".to_string();
    assert_eq!(error_code(&Error::UnixStream(Phase::Create, reason())), "socket-unreachable");
    assert_eq!(error_code(&Error::Decode(Phase::Stream, reason())), "decode-error");
    assert_eq!(error_code(&Error::Rejected(Phase::Start, 404)), "engine-rejected");
    assert_eq!(error_code(&Error::Io(Phase::Attach, reason())), "io-error");
    for phase in [Phase::Version, Phase::Create, Phase::Start, Phase::Attach, Phase::Stream] {
        assert_eq!(error_code(&Error::UnixStream(phase, reason())), "socket-unreachable");
        assert_eq!(error_code(&Error::Rejected(phase, 500)), "engine-rejected");
    }
}

#[test]
fn messages_name_the_phase() {
    assert_eq!(
        Error::UnixStream(Phase::Version, "No such file or directory".to_string()).message(),
        "Failed to get docker version: Unix socket failure: No such file or directory"
    );
    assert_eq!(
        Error::Rejected(Phase::Create, 404).message(),
        "Failed to create container: The engine answered with status 404"
    );
    assert_eq!(
        Error::Io(Phase::Start, "broken pipe".to_string()).message(),
        "Failed to start container: I/O failure: broken pipe"
    );
    assert_eq!(
        Error::Decode(Phase::Attach, "no head".to_string()).message(),
        "Failed to attach to container: Malformed answer: no head"
    );
    assert_eq!(
        Error::Decode(Phase::Stream, String::new()).message(),
        "Failed to read stream: Malformed answer: "
    );
    assert_eq!(Error::Rejected(Phase::Stream, 0).phase(), Phase::Stream);
    assert_eq!(Phase::Version.context(), "Failed to get docker version");
}

#[test]
fn stream_errors_in_words() {
    assert_eq!(StreamError::Read("timed out".to_string()).message(), "timed out");
    assert_eq!(StreamError::TruncatedHeader.message(), "the stream ended inside a frame header");
    assert_eq!(StreamError::UnknownChannel(3).message(), "unknown channel tag 3");
    assert_eq!(StreamError::UnknownChannel(255).message(), "unknown channel tag 255");
    assert_eq!(StreamError::TruncatedPayload.message(), "the stream ended inside a frame payload");
}

#[test]
fn stream_errors_as_failures() {
    assert_eq!(
        Error::from_stream(StreamError::Read("timed out".to_string())),
        Error::Io(Phase::Stream, "timed out".to_string())
    );
    assert_eq!(
        Error::from_stream(StreamError::UnknownChannel(3)),
        Error::Decode(Phase::Stream, "unknown channel tag 3".to_string())
    );
    assert_eq!(error_code(&Error::from_stream(StreamError::TruncatedHeader)), "decode-error");
    assert_eq!(error_code(&Error::from_stream(StreamError::TruncatedPayload)), "decode-error");
    assert_eq!(error_code(&Error::from_stream(StreamError::UnknownChannel(9))), "decode-error");
    assert_eq!(error_code(&Error::from_stream(StreamError::Read(String::new()))), "io-error");
}

#[test]
fn failures_are_answered_with_status_500() {
    let error = Error::Rejected(Phase::Version, 503);
    assert_eq!(
        error_response(&error),
        ErrorResponse {
            status_code: 500,
            body: ErrorBody {
                error: "engine-rejected".to_string(),
                message: "Failed to get docker version: The engine answered with status 503"
                    .to_string(),
            },
        }
    );
    assert_eq!(ENGINE_FAILURE_STATUS, 500);
}
