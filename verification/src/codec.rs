//! The Zstandard codec: the decoder of `ruzstd` and the encoder of `zstd`.
//!
//! Nothing in this module is proved about the codec itself. What a call
//! returns is given a name, and the rest of the library is verified against
//! those names.

use crate::error::DecodeError;
use crate::error::EmbedError;
use ruzstd::frame_decoder::FrameDecoderError;
use ruzstd::StreamingDecoder;
use std::io::Read;
use std::io::Write;
use vstd::prelude::*;

verus! {

/// The error of `ruzstd`'s frame decoder, carried through unread.
#[verifier::external_type_specification]
#[verifier::external_body]
pub struct ExFrameDecoderError(FrameDecoderError);

/// The error of `std::io`, carried through unread.
#[verifier::external_type_specification]
#[verifier::external_body]
pub struct ExIoError(std::io::Error);

/// Whether `ruzstd::StreamingDecoder::new` accepts the frame header at the
/// start of `stream`.
pub uninterp spec fn frame_header_accepted(stream: Seq<u8>) -> bool;

/// What `read_to_end` collects from a `ruzstd::StreamingDecoder` opened on
/// `stream`: the content of the frame, or `None` where it reports an error.
pub uninterp spec fn frame_content(stream: Seq<u8>) -> Option<Seq<u8>>;

/// The frame that `zstd::Encoder` produces from `bytes` at `level`, whenever
/// it produces one.
pub uninterp spec fn zstd_frame(bytes: Seq<u8>, level: int) -> Seq<u8>;

/// Whether `stream` starts with the four bytes that open every Zstandard
/// frame.
pub open spec fn has_magic_number(stream: Seq<u8>) -> bool {
    stream.len() >= 4 && stream[0] == 0x28 && stream[1] == 0xB5 && stream[2] == 0x2F && stream[3]
        == 0xFD
}

/// What decompressing `stream` gives: its content, or the step that failed.
pub open spec fn decode_outcome(stream: Seq<u8>) -> Result<Seq<u8>, DecodeError> {
    if !frame_header_accepted(stream) {
        Err(DecodeError::Header)
    } else {
        match frame_content(stream) {
            Some(content) => Ok(content),
            None => Err(DecodeError::Content),
        }
    }
}

/// Opens a `ruzstd::StreamingDecoder` on `stream` with `StreamingDecoder::new`
/// and drains it with `read_to_end`.
///
/// The outer result is that of `new`, the inner one that of `read_to_end`.
/// The contract names the two: the decoder reads nothing but `stream`, so
/// both are functions of its bytes. Of the header it says one thing more:
/// `new` reads the first four bytes as a little-endian number and refuses
/// every stream in which that is not `0xFD2FB528`.
#[verifier::external_body]
fn decode_frame(stream: &[u8]) -> (raw: Result<Result<Vec<u8>, std::io::Error>, FrameDecoderError>)
    ensures
        raw is Ok <==> frame_header_accepted(stream@),
        raw is Ok ==> has_magic_number(stream@),
        raw matches Ok(Ok(content)) ==> frame_content(stream@) == Some(content@),
        raw matches Ok(Err(_)) ==> frame_content(stream@) is None,
{
    let mut decoder = StreamingDecoder::new(stream)?;
    let mut content = Vec::new();
    match decoder.read_to_end(&mut content) {
        Ok(_) => Ok(Ok(content)),
        Err(e) => Ok(Err(e)),
    }
}

/// Compresses `bytes` with a `zstd::Encoder` made by `Encoder::new` at
/// `level`, fed by `write_all` and closed by `finish`.
///
/// The encoder is deterministic, so a frame that comes back is named by the
/// input and the level. An error may also come from the allocator, so nothing
/// is claimed of it.
#[verifier::external_body]
fn encode_frame(bytes: &[u8], level: i32) -> (raw: Result<Vec<u8>, std::io::Error>)
    ensures
        raw matches Ok(frame) ==> frame@ == zstd_frame(bytes@, level as int),
{
    let mut encoder = zstd::Encoder::new(Vec::new(), level)?;
    encoder.write_all(bytes)?;
    encoder.finish()
}

/// `Vec::into_boxed_slice`: the box holds the items of the vector, in order.
#[verifier::external_body]
fn boxed_slice(content: Vec<u8>) -> (frozen: Box<[u8]>)
    ensures
        frozen@ == content@,
{
    content.into_boxed_slice()
}

/// Maps what the decoder returned to the library's own result.
pub fn decode_result(
    raw: Result<Result<Vec<u8>, std::io::Error>, FrameDecoderError>,
) -> (result: Result<Vec<u8>, DecodeError>)
    ensures
        raw matches Ok(Ok(content)) ==> result == Ok::<Vec<u8>, DecodeError>(content),
        raw matches Ok(Err(_)) ==> result == Err::<Vec<u8>, DecodeError>(DecodeError::Content),
        raw is Err ==> result == Err::<Vec<u8>, DecodeError>(DecodeError::Header),
{
    match raw {
        Ok(Ok(content)) => Ok(content),
        Ok(Err(_)) => Err(DecodeError::Content),
        Err(_) => Err(DecodeError::Header),
    }
}

/// Decompresses one complete stream.
///
/// A stream that does not start with the magic number of a frame, such as
/// one of zeros only, is refused at its header.
pub fn decompress(stream: &[u8]) -> (result: Result<Vec<u8>, DecodeError>)
    ensures
        match result {
            Ok(content) => decode_outcome(stream@) == Ok::<Seq<u8>, DecodeError>(content@),
            Err(e) => decode_outcome(stream@) == Err::<Seq<u8>, DecodeError>(e),
        },
        !has_magic_number(stream@) ==> result == Err::<Vec<u8>, DecodeError>(DecodeError::Header),
{
    decode_result(decode_frame(stream))
}

/// Decompresses one complete stream into a slice that cannot grow.
pub fn decompress_boxed(stream: &[u8]) -> (result: Result<Box<[u8]>, DecodeError>)
    ensures
        match result {
            Ok(content) => decode_outcome(stream@) == Ok::<Seq<u8>, DecodeError>(content@),
            Err(e) => decode_outcome(stream@) == Err::<Seq<u8>, DecodeError>(e),
        },
        !has_magic_number(stream@) ==> result == Err::<Box<[u8]>, DecodeError>(
            DecodeError::Header,
        ),
{
    match decompress(stream) {
        Ok(content) => Ok(boxed_slice(content)),
        Err(e) => Err(e),
    }
}

/// Maps what the encoder returned to the library's own result.
pub fn compression_result(raw: Result<Vec<u8>, std::io::Error>) -> (result: Result<
    Vec<u8>,
    EmbedError,
>)
    ensures
        raw matches Ok(frame) ==> result == Ok::<Vec<u8>, EmbedError>(frame),
        raw is Err ==> result == Err::<Vec<u8>, EmbedError>(EmbedError::Compression),
{
    match raw {
        Ok(frame) => Ok(frame),
        Err(_) => Err(EmbedError::Compression),
    }
}

/// Compresses `bytes` at `level` into one complete, self-terminated frame.
///
/// Whether the encoder succeeds is its own affair; a frame that comes back
/// is the one that the input and the level determine.
pub fn compress(bytes: &[u8], level: i32) -> (result: Result<Vec<u8>, EmbedError>)
    ensures
        result matches Ok(frame) ==> frame@ == zstd_frame(bytes@, level as int),
{
    compression_result(encode_frame(bytes, level))
}

/// Compressing the same bytes at the same level twice gives the same frame,
/// byte for byte, and so the same length.
pub proof fn lemma_compression_deterministic(
    bytes: Seq<u8>,
    level: int,
    first: Seq<u8>,
    second: Seq<u8>,
)
    requires
        first == zstd_frame(bytes, level),
        second == zstd_frame(bytes, level),
    ensures
        first == second,
        first.len() == second.len(),
{
}

} // verus!
