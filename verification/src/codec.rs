//! The payload of a bitmap: base64 text over a zlib stream over the bytes
//! of a single-channel mask.

use crate::error::{CodecError, FormatError};
use crate::geometry::Bitmap;
use flate2::read::{ZlibDecoder, ZlibEncoder};
use std::io::Read;
use vstd::prelude::*;

verus! {

/// Why `base64` refuses a text.
#[verifier::external_type_specification]
#[verifier::external_body]
pub struct ExDecodeError(base64::DecodeError);

/// The text that the standard base64 engine writes for `bytes`.
pub uninterp spec fn base64_text(bytes: Seq<u8>) -> Seq<char>;

/// The bytes that the standard base64 engine reads from `text`, or `None`
/// where it refuses the text.
pub uninterp spec fn base64_bytes(text: Seq<char>) -> Option<Seq<u8>>;

/// The zlib stream that `flate2` writes for `bytes` at its default level,
/// or `None` where it reports a failure.
pub uninterp spec fn zlib_deflated(bytes: Seq<u8>) -> Option<Seq<u8>>;

/// The bytes that `flate2` reads from the zlib stream `stream`, or `None`
/// where it refuses the stream.
pub uninterp spec fn zlib_inflated(stream: Seq<u8>) -> Option<Seq<u8>>;

/// `Engine::encode` of `base64`'s `STANDARD` engine. The contract names the
/// text and claims that the same engine reads the bytes back from it.
#[verifier::external_body]
fn base64_encode(bytes: &[u8]) -> (r: String)
    ensures
        r@ == base64_text(bytes@),
        base64_bytes(r@) == Some(bytes@),
{
    base64::Engine::encode(&base64::engine::general_purpose::STANDARD, bytes)
}

/// `Engine::decode` of `base64`'s `STANDARD` engine. The contract names the
/// bytes and says that the call fails exactly where the engine refuses the
/// text.
#[verifier::external_body]
fn base64_decode(text: &str) -> (r: Result<Vec<u8>, base64::DecodeError>)
    ensures
        match r {
            Ok(bytes) => base64_bytes(text@) == Some(bytes@),
            Err(_) => base64_bytes(text@) is None,
        },
{
    base64::Engine::decode(&base64::engine::general_purpose::STANDARD, text)
}

/// `flate2::read::ZlibEncoder` at the default level, read to its end. The
/// contract names the stream and claims that, where one comes out,
/// `flate2::read::ZlibDecoder` reads the bytes back from it.
#[verifier::external_body]
fn zlib_deflate(bytes: &[u8]) -> (r: Result<Vec<u8>, std::io::Error>)
    ensures
        match r {
            Ok(stream) => zlib_deflated(bytes@) == Some(stream@) && zlib_inflated(stream@) == Some(
                bytes@,
            ),
            Err(_) => zlib_deflated(bytes@) is None,
        },
{
    let mut stream = Vec::new();
    match ZlibEncoder::new(bytes, flate2::Compression::default()).read_to_end(&mut stream) {
        Ok(_) => Ok(stream),
        Err(error) => Err(error),
    }
}

/// `flate2::read::ZlibDecoder`, read to its end. The contract names the
/// bytes and says that the call fails exactly where the decoder refuses the
/// stream.
#[verifier::external_body]
fn zlib_inflate(stream: &[u8]) -> (r: Result<Vec<u8>, std::io::Error>)
    ensures
        match r {
            Ok(bytes) => zlib_inflated(stream@) == Some(bytes@),
            Err(_) => zlib_inflated(stream@) is None,
        },
{
    let mut bytes = Vec::new();
    match ZlibDecoder::new(stream).read_to_end(&mut bytes) {
        Ok(_) => Ok(bytes),
        Err(error) => Err(error),
    }
}

/// The bytes under a payload: what the zlib stream under the base64 text
/// holds. Each of the two steps can fail, with a failure of its own.
pub open spec fn payload_bytes(payload: Seq<char>) -> Result<Seq<u8>, CodecError> {
    match base64_bytes(payload) {
        Some(stream) => match zlib_inflated(stream) {
            Some(bytes) => Ok(bytes),
            None => Err(CodecError::BadCompression),
        },
        None => Err(CodecError::BadBase64),
    }
}

/// The payload for `bytes`: the base64 text of their zlib stream, where the
/// compressor gives one.
pub open spec fn payload_text(bytes: Seq<u8>) -> Option<Seq<char>> {
    match zlib_deflated(bytes) {
        Some(stream) => Some(base64_text(stream)),
        None => None,
    }
}

/// Unpacks a payload that the compressor's outcome `stream` was read from:
/// the bytes where there are some, else the failure of the second step.
pub fn unpacked(stream: Result<Vec<u8>, std::io::Error>) -> (r: Result<Vec<u8>, FormatError>)
    ensures
        match r {
            Ok(bytes) => stream matches Ok(b) && b == bytes,
            Err(e) => stream is Err && e matches FormatError::DecodeDataError(
                CodecError::BadCompression,
            ),
        },
{
    match stream {
        Ok(bytes) => Ok(bytes),
        Err(_) => Err(FormatError::DecodeDataError(CodecError::BadCompression)),
    }
}

/// Unpacks a payload: base64 first, then zlib.
pub fn decode_payload(payload: &str) -> (r: Result<Vec<u8>, FormatError>)
    ensures
        match r {
            Ok(bytes) => payload_bytes(payload@) == Ok::<Seq<u8>, CodecError>(bytes@),
            Err(e) => e matches FormatError::DecodeDataError(c) && payload_bytes(payload@) == Err::<
                Seq<u8>,
                CodecError,
            >(c),
        },
{
    match base64_decode(payload) {
        Ok(stream) => unpacked(zlib_inflate(stream.as_slice())),
        Err(_) => Err(FormatError::DecodeDataError(CodecError::BadBase64)),
    }
}

/// Packs bytes into a payload: zlib first, then base64. Unpacking the
/// payload gives the bytes back. `None` where the compressor reports a
/// failure.
pub fn encode_payload(bytes: &[u8]) -> (r: Option<String>)
    ensures
        r.deep_view() == payload_text(bytes@),
        r matches Some(text) ==> payload_bytes(text@) == Ok::<Seq<u8>, CodecError>(bytes@),
{
    match zlib_deflate(bytes) {
        Ok(stream) => Some(base64_encode(stream.as_slice())),
        Err(_) => None,
    }
}

impl Bitmap {
    /// The bytes of the mask: the payload unpacked. The payload is not
    /// looked at before this is called.
    pub fn decode_data(&self) -> (r: Result<Vec<u8>, FormatError>)
        ensures
            match r {
                Ok(bytes) => payload_bytes(self.data_encoded@) == Ok::<Seq<u8>, CodecError>(bytes@),
                Err(e) => e matches FormatError::DecodeDataError(c) && payload_bytes(
                    self.data_encoded@,
                ) == Err::<Seq<u8>, CodecError>(c),
            },
    {
        decode_payload(self.data_encoded.as_str())
    }

    /// The mask at `origin` whose bytes are `bytes`. `None` where the
    /// compressor reports a failure.
    pub fn encode_data(origin: [u64; 2], bytes: &[u8]) -> (r: Option<Bitmap>)
        ensures
            match r {
                Some(b) => {
                    &&& b.origin == origin
                    &&& payload_text(bytes@) == Some(b.data_encoded@)
                    &&& payload_bytes(b.data_encoded@) == Ok::<Seq<u8>, CodecError>(bytes@)
                },
                None => payload_text(bytes@) is None,
            },
    {
        match encode_payload(bytes) {
            Some(data_encoded) => Some(Bitmap { data_encoded, origin }),
            None => None,
        }
    }
}

} // verus!
