//! The attach stream: frames of standard input, output and error, and the
//! demultiplexer that separates them.
//!
//! A frame is an 8-byte header followed by a payload. Byte 0 of the header is
//! the channel tag, bytes 1 to 3 are reserved and ignored, bytes 4 to 7 are the
//! payload length as a big-endian unsigned 32-bit number.

use vstd::prelude::*;

verus! {

/// The channel that a frame belongs to.
#[derive(Debug, Clone, Copy, PartialEq, Eq)]
pub enum StreamType {
    Stdin,
    Stdout,
    Stderr,
}

/// Why an attach stream could not be read to its end.
#[derive(Debug, PartialEq, Eq)]
pub enum StreamError {
    /// The transport failed while the stream was being read.
    Read(String),
    /// The stream ended inside a frame header.
    TruncatedHeader,
    /// A frame header carried a channel tag other than 0, 1 or 2.
    UnknownChannel(u8),
    /// The stream ended before the payload that a header declared was complete.
    TruncatedPayload,
}

/// What a finished attach stream amounts to: the bytes of standard output, or,
/// where anything was written to standard error, those bytes as the failure.
pub type StreamResult = Result<Vec<u8>, Vec<u8>>;

/// Length of a frame header in bytes.
pub const HEADER_LEN: usize = 8;

/// One unit of the attach stream, as a mathematical value.
pub struct Frame {
    pub channel: StreamType,
    pub payload: Seq<u8>,
}

/// The channel that a tag byte stands for.
pub open spec fn channel_of(tag: u8) -> Option<StreamType> {
    if tag == 0 {
        Some(StreamType::Stdin)
    } else if tag == 1 {
        Some(StreamType::Stdout)
    } else if tag == 2 {
        Some(StreamType::Stderr)
    } else {
        None
    }
}

/// The tag byte of a channel.
pub open spec fn tag_of(channel: StreamType) -> u8 {
    match channel {
        StreamType::Stdin => 0,
        StreamType::Stdout => 1,
        StreamType::Stderr => 2,
    }
}

/// The number that four bytes spell in big-endian order.
pub open spec fn be32(b0: u8, b1: u8, b2: u8, b3: u8) -> nat {
    (b0 as nat) * 0x100_0000 + (b1 as nat) * 0x1_0000 + (b2 as nat) * 0x100 + (b3 as nat)
}

/// The channel named by the header at the start of `rest`.
pub open spec fn header_channel(rest: Seq<u8>) -> Result<StreamType, StreamError> {
    if rest.len() < HEADER_LEN {
        Err(StreamError::TruncatedHeader)
    } else {
        match channel_of(rest[0]) {
            Some(channel) => Ok(channel),
            None => Err(StreamError::UnknownChannel(rest[0])),
        }
    }
}

/// The payload length declared by the header at the start of `rest`.
pub open spec fn header_length(rest: Seq<u8>) -> Result<nat, StreamError> {
    if rest.len() < HEADER_LEN {
        Err(StreamError::TruncatedHeader)
    } else {
        Ok(be32(rest[4], rest[5], rest[6], rest[7]))
    }
}

/// The frames that a complete stream consists of, or the first violation of
/// the frame format met while reading it front to back.
pub open spec fn parse_frames(stream: Seq<u8>) -> Result<Seq<Frame>, StreamError>
    decreases stream.len(),
{
    if stream.len() == 0 {
        Ok(Seq::empty())
    } else {
        match (header_channel(stream), header_length(stream)) {
            (Err(e), _) => Err(e),
            (_, Err(e)) => Err(e),
            (Ok(channel), Ok(n)) => {
                if stream.len() < HEADER_LEN + n {
                    Err(StreamError::TruncatedPayload)
                } else {
                    let frame = Frame {
                        channel,
                        payload: stream.subrange(HEADER_LEN as int, HEADER_LEN + n),
                    };
                    match parse_frames(stream.skip(HEADER_LEN + n)) {
                        Ok(rest) => Ok(seq![frame] + rest),
                        Err(e) => Err(e),
                    }
                }
            },
        }
    }
}

/// The payloads that `frames` carry on `channel`, joined in order.
pub open spec fn channel_bytes(frames: Seq<Frame>, channel: StreamType) -> Seq<u8>
    decreases frames.len(),
{
    if frames.len() == 0 {
        Seq::empty()
    } else if frames.last().channel == channel {
        channel_bytes(frames.drop_last(), channel) + frames.last().payload
    } else {
        channel_bytes(frames.drop_last(), channel)
    }
}

/// Standard error decides: any byte on it makes the run a failure that carries
/// those bytes; otherwise the run succeeded with what standard output holds.
pub open spec fn classify(stdout: Seq<u8>, stderr: Seq<u8>) -> Result<Seq<u8>, Seq<u8>> {
    if stderr.len() > 0 {
        Err(stderr)
    } else {
        Ok(stdout)
    }
}

/// The result that a sequence of frames amounts to.
pub open spec fn outcome(frames: Seq<Frame>) -> Result<Seq<u8>, Seq<u8>> {
    classify(
        channel_bytes(frames, StreamType::Stdout),
        channel_bytes(frames, StreamType::Stderr),
    )
}

/// A stream result with its buffers taken as sequences.
pub open spec fn result_view(result: StreamResult) -> Result<Seq<u8>, Seq<u8>> {
    match result {
        Ok(stdout) => Ok(stdout@),
        Err(stderr) => Err(stderr@),
    }
}

impl StreamType {
    /// Reads a channel tag.
    pub fn from_byte(n: u8) -> (r: Option<StreamType>)
        ensures
            r == channel_of(n),
    {
        match n {
            0 => Some(StreamType::Stdin),
            1 => Some(StreamType::Stdout),
            2 => Some(StreamType::Stderr),
            _ => None,
        }
    }
}

/// Reads the channel of the frame whose header starts `rest`.
pub fn read_stream_type(rest: &[u8]) -> (r: Result<StreamType, StreamError>)
    ensures
        r == header_channel(rest@),
{
    if rest.len() < HEADER_LEN {
        return Err(StreamError::TruncatedHeader);
    }
    let tag: u8 = rest[0];
    match StreamType::from_byte(tag) {
        Some(channel) => Ok(channel),
        None => Err(StreamError::UnknownChannel(tag)),
    }
}

/// Reads the payload length of the frame whose header starts `rest`.
pub fn read_stream_length(rest: &[u8]) -> (r: Result<usize, StreamError>)
    ensures
        match header_length(rest@) {
            Ok(n) => r == Ok::<usize, StreamError>(n as usize) && n <= u32::MAX,
            Err(e) => r == Err::<usize, StreamError>(e),
        },
{
    if rest.len() < HEADER_LEN {
        return Err(StreamError::TruncatedHeader);
    }
    let n: u32 = (rest[4] as u32) * 0x100_0000 + (rest[5] as u32) * 0x1_0000 + (rest[6] as u32)
        * 0x100 + (rest[7] as u32);
    Ok(n as usize)
}

/// Splits a complete attach stream into what was written to standard output
/// and to standard error, and classifies the run: a failure that carries the
/// bytes of standard error if there are any, else a success that carries the
/// bytes of standard output. Frames on the standard input channel are read and
/// dropped. The first violation of the frame format fails the whole read.
pub fn read_stream(bytes: &[u8]) -> (r: Result<StreamResult, StreamError>)
    ensures
        match parse_frames(bytes@) {
            Ok(frames) => r matches Ok(result) && result_view(result) == outcome(frames),
            Err(e) => r matches Err(x) && x == e,
        },
{
    let mut stdout: Vec<u8> = Vec::new();
    let mut stderr: Vec<u8> = Vec::new();
    let mut pos: usize = 0;
    let ghost mut done: Seq<Frame> = Seq::empty();
    proof {
        assert(bytes@.skip(0) == bytes@);
        lemma_after_no_frames(parse_frames(bytes@));
    }
    while pos < bytes.len()
        invariant
            pos <= bytes.len(),
            stdout@ == channel_bytes(done, StreamType::Stdout),
            stderr@ == channel_bytes(done, StreamType::Stderr),
            parse_frames(bytes@) == after_frames(done, parse_frames(bytes@.skip(pos as int))),
        decreases bytes.len() - pos,
    {
        let rest = &bytes[pos..bytes.len()];
        assert(rest@ == bytes@.skip(pos as int));
        let stream_type = match read_stream_type(rest) {
            Ok(channel) => channel,
            Err(e) => {
                return Err(e);
            },
        };
        let stream_length = match read_stream_length(rest) {
            Ok(n) => n,
            Err(e) => {
                return Err(e);
            },
        };
        if stream_length > rest.len() - HEADER_LEN {
            return Err(StreamError::TruncatedPayload);
        }
        let payload = &rest[HEADER_LEN..HEADER_LEN + stream_length];
        proof {
            let frame = Frame { channel: stream_type, payload: payload@ };
            assert(rest@.skip(HEADER_LEN + stream_length) == bytes@.skip(
                pos + HEADER_LEN + stream_length,
            ));
            lemma_after_frames_push(
                done,
                frame,
                parse_frames(bytes@.skip(pos + HEADER_LEN + stream_length)),
            );
            assert(done.push(frame).drop_last() == done);
            done = done.push(frame);
        }
        match stream_type {
            StreamType::Stdin => {},
            StreamType::Stdout => {
                stdout.extend_from_slice(payload);
            },
            StreamType::Stderr => {
                stderr.extend_from_slice(payload);
            },
        }
        pos = pos + HEADER_LEN + stream_length;
    }
    assert(bytes@.skip(pos as int).len() == 0);
    assert(done + Seq::<Frame>::empty() == done);
    if stderr.len() > 0 {
        Ok(Err(stderr))
    } else {
        Ok(Ok(stdout))
    }
}

/// What a stream amounts to once the frames `done` were read off its front and
/// `rest` is what reading the remainder gives.
pub open spec fn after_frames(done: Seq<Frame>, rest: Result<Seq<Frame>, StreamError>) -> Result<
    Seq<Frame>,
    StreamError,
> {
    match rest {
        Ok(frames) => Ok(done + frames),
        Err(e) => Err(e),
    }
}

/// `image` is one frame as it stands in a stream: a header that names the
/// frame's channel and declares the length of its payload, whatever the
/// reserved bytes hold, and then the payload.
pub open spec fn is_frame_image(image: Seq<u8>, frame: Frame) -> bool {
    &&& image.len() == HEADER_LEN + frame.payload.len()
    &&& channel_of(image[0]) == Some(frame.channel)
    &&& be32(image[4], image[5], image[6], image[7]) == frame.payload.len()
    &&& image.skip(HEADER_LEN as int) == frame.payload
}

/// `stream` is `frames` written one after the other, and nothing else.
pub open spec fn well_formed(stream: Seq<u8>, frames: Seq<Frame>) -> bool
    decreases frames.len(),
{
    if frames.len() == 0 {
        stream.len() == 0
    } else {
        let k = HEADER_LEN + frames[0].payload.len();
        &&& k <= stream.len()
        &&& is_frame_image(stream.take(k), frames[0])
        &&& well_formed(stream.skip(k), frames.skip(1))
    }
}

/// The four bytes that spell a number below 2^32 in big-endian order.
pub open spec fn be32_bytes(n: nat) -> Seq<u8> {
    seq![
        ((n / 0x100_0000) % 0x100) as u8,
        ((n / 0x1_0000) % 0x100) as u8,
        ((n / 0x100) % 0x100) as u8,
        (n % 0x100) as u8,
    ]
}

/// A frame as the engine writes it: the channel tag, three zero bytes, the
/// length of the payload, the payload.
pub open spec fn frame_bytes(frame: Frame) -> Seq<u8> {
    seq![tag_of(frame.channel), 0u8, 0u8, 0u8] + be32_bytes(frame.payload.len()) + frame.payload
}

/// A sequence of frames as the engine writes it: one frame after the other.
pub open spec fn stream_bytes(frames: Seq<Frame>) -> Seq<u8>
    decreases frames.len(),
{
    if frames.len() == 0 {
        Seq::empty()
    } else {
        frame_bytes(frames[0]) + stream_bytes(frames.skip(1))
    }
}

/// Frames whose payloads are short enough for the length field, written one
/// after the other, are a well-formed stream of exactly those frames.
pub proof fn lemma_written_stream_is_well_formed(frames: Seq<Frame>)
    requires
        forall|i: int| 0 <= i < frames.len() ==> (#[trigger] frames[i]).payload.len() <= u32::MAX,
    ensures
        well_formed(stream_bytes(frames), frames),
    decreases frames.len(),
{
    if frames.len() > 0 {
        let frame = frames[0];
        let n = frame.payload.len();
        let image = frame_bytes(frame);
        let rest = stream_bytes(frames.skip(1));
        let stream = stream_bytes(frames);
        let k = HEADER_LEN + n;
        assert(n <= u32::MAX);
        assert(be32(image[4], image[5], image[6], image[7]) == n) by {
            let n = n as int;
            assert(image[4] == ((n / 0x100_0000) % 0x100) as u8);
            assert(image[5] == ((n / 0x1_0000) % 0x100) as u8);
            assert(image[6] == ((n / 0x100) % 0x100) as u8);
            assert(image[7] == (n % 0x100) as u8);
            assert(0 <= n < 0x1_0000_0000);
        }
        assert(image.skip(HEADER_LEN as int) == frame.payload);
        assert(stream.take(k) == image);
        assert(stream.skip(k) == rest);
        assert forall|i: int| 0 <= i < frames.skip(1).len() implies (#[trigger] frames.skip(
            1,
        )[i]).payload.len() <= u32::MAX by {
            assert(frames.skip(1)[i] == frames[i + 1]);
        }
        lemma_written_stream_is_well_formed(frames.skip(1));
    }
}

/// Reading a stream that starts with well-formed frames reads those frames and
/// goes on with what follows them.
pub proof fn lemma_parse_after_well_formed(head: Seq<u8>, frames: Seq<Frame>, tail: Seq<u8>)
    requires
        well_formed(head, frames),
    ensures
        parse_frames(head + tail) == after_frames(frames, parse_frames(tail)),
    decreases frames.len(),
{
    if frames.len() == 0 {
        assert(head + tail == tail);
        lemma_after_no_frames(parse_frames(tail));
    } else {
        let stream = head + tail;
        let frame = frames[0];
        let n = frame.payload.len();
        let k = HEADER_LEN + n;
        let image = head.take(k);
        assert(stream[0] == image[0]);
        assert(stream[4] == image[4] && stream[5] == image[5] && stream[6] == image[6]
            && stream[7] == image[7]);
        assert(stream.subrange(HEADER_LEN as int, k) == image.skip(HEADER_LEN as int));
        assert(stream.skip(k) == head.skip(k) + tail);
        lemma_parse_after_well_formed(head.skip(k), frames.skip(1), tail);
        let rest = parse_frames(tail);
        if let Ok(more) = rest {
            assert(seq![frame] + (frames.skip(1) + more) == frames + more);
        }
    }
}

/// The demultiplexer is correct on every well-formed stream: it reads exactly
/// the frames that were written, so what it returns for standard output is the
/// payloads written on channel 1 joined in order, and likewise channel 2 for
/// standard error.
pub proof fn lemma_well_formed_stream_is_read(stream: Seq<u8>, frames: Seq<Frame>)
    requires
        well_formed(stream, frames),
    ensures
        parse_frames(stream) == Ok::<Seq<Frame>, StreamError>(frames),
{
    lemma_parse_after_well_formed(stream, frames, Seq::empty());
    assert(stream + Seq::<u8>::empty() == stream);
    assert(frames + Seq::<Frame>::empty() == frames);
}

/// Whatever the demultiplexer accepts is well-formed: the frames it reads are
/// the frames that the stream consists of.
pub proof fn lemma_read_stream_is_well_formed(stream: Seq<u8>)
    ensures
        parse_frames(stream) matches Ok(frames) ==> well_formed(stream, frames),
    decreases stream.len(),
{
    if stream.len() > 0 {
        if let Ok(frames) = parse_frames(stream) {
            let n = header_length(stream)->Ok_0;
            let k = HEADER_LEN + n;
            lemma_read_stream_is_well_formed(stream.skip(k));
            let rest = parse_frames(stream.skip(k))->Ok_0;
            assert(frames.skip(1) == rest);
            assert(stream.take(k).skip(HEADER_LEN as int) == stream.subrange(HEADER_LEN as int, k));
        }
    }
}

/// Frames on the standard input channel never show in what is returned: the
/// result is that of the same frames with those on standard input taken out.
pub proof fn lemma_stdin_frames_are_dropped(frames: Seq<Frame>, channel: StreamType)
    requires
        channel != StreamType::Stdin,
    ensures
        channel_bytes(frames, channel) == channel_bytes(
            frames.filter(|f: Frame| f.channel != StreamType::Stdin),
            channel,
        ),
    decreases frames.len(),
{
    let keep = |f: Frame| f.channel != StreamType::Stdin;
    if frames.len() == 0 {
        assert(frames.filter(keep).len() == 0) by {
            frames.lemma_filter_len(keep);
        }
    } else {
        let init = frames.drop_last();
        let last = frames.last();
        lemma_stdin_frames_are_dropped(init, channel);
        assert(frames == init.push(last));
        init.lemma_filter_push(last, keep);
        if keep(last) {
            assert(init.filter(keep).push(last).drop_last() == init.filter(keep));
        }
    }
}

/// A frame on `channel` contributes its whole payload to what that channel
/// amounts to.
pub proof fn lemma_channel_bytes_holds_payload(frames: Seq<Frame>, i: int)
    requires
        0 <= i < frames.len(),
    ensures
        channel_bytes(frames, frames[i].channel).len() >= frames[i].payload.len(),
    decreases frames.len(),
{
    if i < frames.len() - 1 {
        lemma_channel_bytes_holds_payload(frames.drop_last(), i);
    }
}

/// Standard error alone tells failure from success: with one frame on standard
/// error whose payload is not empty, wherever it stands and whatever standard
/// output holds, the result is the failure that carries all of standard error.
pub proof fn lemma_stderr_means_failure(frames: Seq<Frame>, i: int)
    requires
        0 <= i < frames.len(),
        frames[i].channel == StreamType::Stderr,
        frames[i].payload.len() > 0,
    ensures
        outcome(frames) == Err::<Seq<u8>, Seq<u8>>(channel_bytes(frames, StreamType::Stderr)),
{
    lemma_channel_bytes_holds_payload(frames, i);
}

/// Without a byte on standard error the result is the success that carries all
/// of standard output.
pub proof fn lemma_silent_stderr_means_success(frames: Seq<Frame>)
    requires
        forall|i: int|
            0 <= i < frames.len() && frames[i].channel == StreamType::Stderr
                ==> frames[i].payload.len() == 0,
    ensures
        outcome(frames) == Ok::<Seq<u8>, Seq<u8>>(channel_bytes(frames, StreamType::Stdout)),
    decreases frames.len(),
{
    if frames.len() > 0 {
        let init = frames.drop_last();
        assert forall|i: int|
            0 <= i < init.len() && init[i].channel == StreamType::Stderr implies init[i].payload.len()
            == 0 by {
            assert(init[i] == frames[i]);
        }
        lemma_silent_stderr_means_success(init);
    }
}

/// A stream that ends inside a payload is an error, never a shorter success:
/// after any well-formed frames, a complete header that declares more bytes
/// than follow it fails the read.
pub proof fn lemma_truncated_payload_is_an_error(
    head: Seq<u8>,
    frames: Seq<Frame>,
    tail: Seq<u8>,
)
    requires
        well_formed(head, frames),
        tail.len() >= HEADER_LEN,
        channel_of(tail[0]) is Some,
        tail.len() < HEADER_LEN + be32(tail[4], tail[5], tail[6], tail[7]),
    ensures
        parse_frames(head + tail) == Err::<Seq<Frame>, StreamError>(StreamError::TruncatedPayload),
{
    lemma_parse_after_well_formed(head, frames, tail);
}

/// A stream that ends inside a header is an error: after any well-formed
/// frames, one to seven more bytes fail the read.
pub proof fn lemma_truncated_header_is_an_error(
    head: Seq<u8>,
    frames: Seq<Frame>,
    tail: Seq<u8>,
)
    requires
        well_formed(head, frames),
        0 < tail.len() < HEADER_LEN,
    ensures
        parse_frames(head + tail) == Err::<Seq<Frame>, StreamError>(StreamError::TruncatedHeader),
{
    lemma_parse_after_well_formed(head, frames, tail);
}

/// A header with a channel tag other than 0, 1 or 2 fails the read with that
/// tag, whatever follows it: the frame is not skipped.
pub proof fn lemma_unknown_channel_is_an_error(head: Seq<u8>, frames: Seq<Frame>, tail: Seq<u8>)
    requires
        well_formed(head, frames),
        tail.len() >= HEADER_LEN,
        tail[0] > 2,
    ensures
        parse_frames(head + tail) == Err::<Seq<Frame>, StreamError>(
            StreamError::UnknownChannel(tail[0]),
        ),
{
    lemma_parse_after_well_formed(head, frames, tail);
}

proof fn lemma_after_no_frames(rest: Result<Seq<Frame>, StreamError>)
    ensures
        after_frames(Seq::empty(), rest) == rest,
{
    if let Ok(frames) = rest {
        assert(Seq::<Frame>::empty() + frames == frames);
    }
}

proof fn lemma_after_frames_push(
    done: Seq<Frame>,
    frame: Frame,
    rest: Result<Seq<Frame>, StreamError>,
)
    ensures
        after_frames(done, after_frames(seq![frame], rest)) == after_frames(done.push(frame), rest),
{
    if let Ok(frames) = rest {
        assert(done + (seq![frame] + frames) == done.push(frame) + frames);
    }
}

} // verus!
