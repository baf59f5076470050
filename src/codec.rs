//! Frame codec: a frame on the wire is the deflate-compressed serialized message.

use vstd::prelude::*;

verus! {

/// The compression level used for every outbound frame.
pub const COMPRESSION_LEVEL: u8 = 8;

/// Why an inbound frame could not be turned into a request.
#[derive(Debug, Clone, Copy, PartialEq, Eq, Structural)]
pub enum FrameError {
    /// The bytes are not a valid deflate stream.
    Decompress,
    /// The decompressed bytes are not a well-formed encoding of a request.
    Deserialize,
}

/// What `miniz_oxide::deflate::compress_to_vec` produces for `data` at `level`.
pub uninterp spec fn deflated(data: Seq<u8>, level: u8) -> Seq<u8>;

/// What `miniz_oxide::inflate::decompress_to_vec` produces for `data`:
/// `None` where it reports an error.
pub uninterp spec fn inflated(data: Seq<u8>) -> Option<Seq<u8>>;

/// Relies on `miniz_oxide::deflate::compress_to_vec`: a raw deflate stream of
/// `data`, which `decompress_to_vec` turns back into `data` (deflate is lossless).
#[verifier::external_body]
fn deflate_bytes(data: &[u8], level: u8) -> (r: Vec<u8>)
    ensures
        r@ == deflated(data@, level),
        inflated(r@) == Some(data@),
{
    miniz_oxide::deflate::compress_to_vec(data, level)
}

/// Relies on `miniz_oxide::inflate::decompress_to_vec`: the decompressed bytes,
/// or `None` where the input is not a complete, valid deflate stream.
#[verifier::external_body]
fn inflate_bytes(data: &[u8]) -> (r: Option<Vec<u8>>)
    ensures
        match r {
            Some(v) => inflated(data@) == Some(v@),
            None => inflated(data@) is None,
        },
{
    miniz_oxide::inflate::decompress_to_vec(data).ok()
}

/// The frame that carries `payload`.
pub open spec fn frame_of(payload: Seq<u8>) -> Seq<u8> {
    deflated(payload, COMPRESSION_LEVEL)
}

/// The payload carried by the inbound frame `raw`, or why there is none.
pub open spec fn payload_of(raw: Seq<u8>) -> Result<Seq<u8>, FrameError> {
    match inflated(raw) {
        Some(p) => Ok(p),
        None => Err(FrameError::Decompress),
    }
}

/// Compresses a serialized message into one outbound frame.
/// Decoding the frame gives the payload back.
pub fn encode_frame(payload: &[u8]) -> (r: Vec<u8>)
    ensures
        r@ == frame_of(payload@),
        payload_of(r@) == Ok::<Seq<u8>, FrameError>(payload@),
{
    deflate_bytes(payload, COMPRESSION_LEVEL)
}

/// Decompresses one inbound frame into the serialized message it carries.
pub fn decode_frame(raw: &[u8]) -> (r: Result<Vec<u8>, FrameError>)
    ensures
        match r {
            Ok(p) => payload_of(raw@) == Ok::<Seq<u8>, FrameError>(p@),
            Err(e) => payload_of(raw@) == Err::<Seq<u8>, FrameError>(e),
        },
        r is Err ==> r == Err::<Vec<u8>, FrameError>(FrameError::Decompress),
{
    match inflate_bytes(raw) {
        Some(p) => Ok(p),
        None => Err(FrameError::Decompress),
    }
}

} // verus!
