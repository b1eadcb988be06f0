use docker_run::stream::{
    read_stream, read_stream_length, read_stream_type, StreamError, StreamType,
};

fn frame(tag: u8, payload: &[u8]) -> Vec<u8> {
    let mut bytes = vec![tag, 0, 0, 0];
    bytes.extend_from_slice(&(payload.len() as u32).to_be_bytes());
    bytes.extend_from_slice(payload);
    bytes
}

fn stream(frames: &[(u8, &[u8])]) -> Vec<u8> {
    let mut bytes = Vec::new();
    for (tag, payload) in frames {
        bytes.extend(frame(*tag, payload));
    }
    bytes
}

#[test]
fn one_stdout_frame_then_clean_end_is_success() {
    let bytes = frame(1, b"hello");
    assert_eq!(bytes, vec![1, 0, 0, 0, 0, 0, 0, 5, b'h', b'e', b'l', b'l', b'o']);
    assert_eq!(read_stream(&bytes), Ok(Ok(b"hello".to_vec())));
}

#[test]
fn stdout_then_stderr_is_failure_with_stderr() {
    let bytes = stream(&[(1, b"ok"), (2, b"bad")]);
    assert_eq!(read_stream(&bytes), Ok(Err(b"bad".to_vec())));
}

#[test]
fn empty_stream_is_empty_success() {
    assert_eq!(read_stream(&[]), Ok(Ok(Vec::new())));
}

#[test]
fn payloads_are_joined_in_order_per_channel() {
    let bytes = stream(&[(1, b"ab"), (1, b"cd"), (1, b""), (1, b"e")]);
    assert_eq!(read_stream(&bytes), Ok(Ok(b"abcde".to_vec())));
    let bytes = stream(&[(2, b"x"), (1, b"one"), (2, b"yz"), (1, b"two")]);
    assert_eq!(read_stream(&bytes), Ok(Err(b"xyz".to_vec())));
}

#[test]
fn stdin_frames_are_read_and_dropped() {
    let with = stream(&[(0, b"typed"), (1, b"out"), (0, b"more"), (1, b"put")]);
    let without = stream(&[(1, b"out"), (1, b"put")]);
    assert_eq!(read_stream(&with), Ok(Ok(b"output".to_vec())));
    assert_eq!(read_stream(&with), read_stream(&without));
    let only = stream(&[(0, b"typed")]);
    assert_eq!(read_stream(&only), Ok(Ok(Vec::new())));
}

#[test]
fn stderr_anywhere_makes_failure() {
    let first = stream(&[(2, b"e"), (1, b"lots of output")]);
    let middle = stream(&[(1, b"lots"), (2, b"e"), (1, b"of output")]);
    let last = stream(&[(1, b"lots of output"), (2, b"e")]);
    assert_eq!(read_stream(&first), Ok(Err(b"e".to_vec())));
    assert_eq!(read_stream(&middle), Ok(Err(b"e".to_vec())));
    assert_eq!(read_stream(&last), Ok(Err(b"e".to_vec())));
}

#[test]
fn empty_stderr_frame_is_no_failure() {
    let bytes = stream(&[(1, b"fine"), (2, b"")]);
    assert_eq!(read_stream(&bytes), Ok(Ok(b"fine".to_vec())));
}

#[test]
fn truncated_payload_is_an_error() {
    let mut bytes = frame(1, b"hello");
    bytes.pop();
    assert_eq!(read_stream(&bytes), Err(StreamError::TruncatedPayload));
    let mut bytes = stream(&[(1, b"whole"), (1, b"cut short")]);
    bytes.truncate(bytes.len() - 4);
    assert_eq!(read_stream(&bytes), Err(StreamError::TruncatedPayload));
    let header_only = vec![1, 0, 0, 0, 0, 0, 0, 1];
    assert_eq!(read_stream(&header_only), Err(StreamError::TruncatedPayload));
}

#[test]
fn truncated_header_is_an_error() {
    for len in 1..8 {
        let bytes = vec![1u8; len];
        assert_eq!(read_stream(&bytes), Err(StreamError::TruncatedHeader));
    }
    let mut bytes = frame(1, b"whole");
    bytes.extend_from_slice(&[1, 0, 0]);
    assert_eq!(read_stream(&bytes), Err(StreamError::TruncatedHeader));
}

#[test]
fn unknown_channel_is_an_error_not_a_skipped_frame() {
    let bytes = stream(&[(1, b"before"), (3, b"what"), (1, b"after")]);
    assert_eq!(read_stream(&bytes), Err(StreamError::UnknownChannel(3)));
    let bytes = frame(255, b"");
    assert_eq!(read_stream(&bytes), Err(StreamError::UnknownChannel(255)));
}

#[test]
fn short_header_is_reported_before_its_tag_is_read() {
    let bytes = vec![9, 0, 0, 0, 0];
    assert_eq!(read_stream(&bytes), Err(StreamError::TruncatedHeader));
}

#[test]
fn reserved_bytes_are_ignored() {
    let bytes = vec![1, 7, 8, 9, 0, 0, 0, 1, b'x'];
    assert_eq!(read_stream(&bytes), Ok(Ok(b"x".to_vec())));
}

#[test]
fn length_is_big_endian() {
    let mut bytes = vec![1, 0, 0, 0, 0, 0, 1, 2];
    bytes.extend(std::iter::repeat(b'a').take(258));
    assert_eq!(read_stream(&bytes), Ok(Ok(vec![b'a'; 258])));
    assert_eq!(read_stream_length(&[0, 0, 0, 0, 1, 2, 3, 4]), Ok(16909060));
    assert_eq!(read_stream_length(&[0, 0, 0, 0, 0, 0, 0, 0]), Ok(0));
    assert_eq!(read_stream_length(&[0, 0, 0, 0, 255, 255, 255, 255]), Ok(4294967295));
    assert_eq!(read_stream_length(&[0, 0, 0, 0, 1, 2, 3]), Err(StreamError::TruncatedHeader));
}

#[test]
fn channel_tags() {
    assert_eq!(StreamType::from_byte(0), Some(StreamType::Stdin));
    assert_eq!(StreamType::from_byte(1), Some(StreamType::Stdout));
    assert_eq!(StreamType::from_byte(2), Some(StreamType::Stderr));
    assert_eq!(StreamType::from_byte(3), None);
    assert_eq!(StreamType::from_byte(255), None);
}

#[test]
fn header_channel_is_read_from_the_first_byte() {
    assert_eq!(read_stream_type(&[2, 0, 0, 0, 0, 0, 0, 0]), Ok(StreamType::Stderr));
    assert_eq!(read_stream_type(&[0, 1, 1, 1, 9, 9, 9, 9, 5]), Ok(StreamType::Stdin));
    assert_eq!(read_stream_type(&[4, 0, 0, 0, 0, 0, 0, 0]), Err(StreamError::UnknownChannel(4)));
    assert_eq!(read_stream_type(&[1, 0, 0, 0]), Err(StreamError::TruncatedHeader));
    assert_eq!(read_stream_type(&[]), Err(StreamError::TruncatedHeader));
}

#[test]
fn no_output_is_returned_with_an_error() {
    let mut bytes = stream(&[(1, b"partial output"), (2, b"partial error")]);
    bytes.extend_from_slice(&[1, 0, 0, 0, 0, 0, 0, 9, b'x']);
    assert_eq!(read_stream(&bytes), Err(StreamError::TruncatedPayload));
}
