//! How the bytes of a record are stored: as they are, or as a gzip stream where they are
//! longer than a threshold.

use vstd::prelude::*;
use vstd::slice::slice_to_vec;
use std::io::Read;
use std::io::Write;
use flate2::bufread::GzDecoder;
use flate2::write::GzEncoder;
use flate2::Compression;
use crate::error::DecodeError;

verus! {

/// Serialized records longer than this many bytes, one MiB, are stored compressed. The
/// store's limit on one request is somewhat above it.
pub const MODEL_COMPRESSION_THRESHOLD: usize = 0x10_0000;

/// The gzip stream that the encoder writes for `data` at its default level.
pub uninterp spec fn gzip_of(data: Seq<u8>) -> Seq<u8>;

/// What the decoder reads out of `data`, or `None` where it fails.
pub uninterp spec fn gunzip_of(data: Seq<u8>) -> Option<Seq<u8>>;

/// Whether the decoder finds a valid gzip header at the start of `data`.
pub uninterp spec fn has_gzip_header(data: Seq<u8>) -> bool;

#[verifier::external_type_specification]
#[verifier::external_body]
pub struct ExIoError(std::io::Error);

/// Compresses `data` into a gzip stream.
///
/// Feeds `data` to a `flate2::write::GzEncoder` over an empty vector, made with
/// `Compression::default()`, and finishes it; writing into a vector does not fail. The
/// stream starts with the ten-byte header that the encoder's builder writes, whose first
/// bytes are `1f 8b`; the decoder accepts that header and gives `data` back for the
/// stream.
#[verifier::external_body]
fn gzip(data: &[u8]) -> (r: Vec<u8>)
    ensures
        r@ == gzip_of(data@),
        r@.len() >= 10 && r@[0] == 0x1f && r@[1] == 0x8b,
        has_gzip_header(r@),
        gunzip_of(r@) == Some(data@),
{
    let mut encoder = GzEncoder::new(Vec::new(), Compression::default());
    encoder.write_all(data).unwrap();
    encoder.finish().unwrap()
}

/// Whether `data` starts with a gzip header.
///
/// Makes a `flate2::bufread::GzDecoder` over `data`, which parses the header at once, and
/// asks it for the header. A header has ten bytes at least and starts with the bytes
/// `1f 8b 08`.
#[verifier::external_body]
fn gzip_header_present(data: &[u8]) -> (r: bool)
    ensures
        r == has_gzip_header(data@),
        r ==> data@.len() >= 10 && data@[0] == 0x1f && data@[1] == 0x8b && data@[2] == 8,
{
    GzDecoder::new(data).header().is_some()
}

/// Decompresses the gzip stream at the start of `data`.
///
/// Makes a `flate2::bufread::GzDecoder` over `data` and reads it to its end. The read
/// fails where the stream is truncated or invalid.
#[verifier::external_body]
fn gunzip(data: &[u8]) -> (r: Result<Vec<u8>, std::io::Error>)
    ensures
        match r {
            Ok(bytes) => gunzip_of(data@) == Some(bytes@),
            Err(_) => gunzip_of(data@) is None,
        },
{
    let mut decoder = GzDecoder::new(data);
    let mut buf = Vec::new();
    match decoder.read_to_end(&mut buf) {
        Ok(_) => Ok(buf),
        Err(e) => Err(e),
    }
}

/// The bytes that are stored for a record whose serialized form is `wire`.
pub open spec fn encoded(wire: Seq<u8>) -> Seq<u8> {
    if wire.len() > MODEL_COMPRESSION_THRESHOLD {
        gzip_of(wire)
    } else {
        wire
    }
}

/// The serialized form that stored bytes stand for.
pub open spec fn decoded(stored: Seq<u8>) -> Result<Seq<u8>, DecodeError> {
    if has_gzip_header(stored) {
        match gunzip_of(stored) {
            Some(wire) => Ok(wire),
            None => Err(DecodeError::Corrupt),
        }
    } else {
        Ok(stored)
    }
}

/// Whether a serialized form of `len` bytes is stored compressed.
pub fn is_over_threshold(len: usize) -> (r: bool)
    ensures
        r == (len > MODEL_COMPRESSION_THRESHOLD),
{
    len > MODEL_COMPRESSION_THRESHOLD
}

/// What a decompression amounts to: the bytes it gave, or a corrupt record where it
/// failed.
pub fn decompressed(outcome: Result<Vec<u8>, std::io::Error>) -> (r: Result<Vec<u8>, DecodeError>)
    ensures
        r == (match outcome {
            Ok(bytes) => Ok::<Vec<u8>, DecodeError>(bytes),
            Err(_) => Err(DecodeError::Corrupt),
        }),
{
    match outcome {
        Ok(bytes) => Ok(bytes),
        Err(_) => Err(DecodeError::Corrupt),
    }
}

/// Turns the serialized form of a record into the bytes to store: compressed where it is
/// longer than [`MODEL_COMPRESSION_THRESHOLD`], unchanged otherwise.
///
/// What is stored decodes to what was encoded, with one exception: a serialized form
/// that is not over the threshold and yet starts with a gzip header of its own is stored
/// as it is, and decoding takes it for a compressed record.
pub fn encode_value(pb_encoded: Vec<u8>) -> (r: Vec<u8>)
    ensures
        r@ == encoded(pb_encoded@),
        pb_encoded@.len() > MODEL_COMPRESSION_THRESHOLD ==> r@.len() >= 10 && r@[0] == 0x1f && r@[1]
            == 0x8b,
        pb_encoded@.len() > MODEL_COMPRESSION_THRESHOLD || !has_gzip_header(pb_encoded@)
            ==> decoded(r@) == Ok::<Seq<u8>, DecodeError>(pb_encoded@),
{
    if is_over_threshold(pb_encoded.len()) {
        gzip(pb_encoded.as_slice())
    } else {
        pb_encoded
    }
}

/// Turns stored bytes back into the serialized form of a record: decompressed where they
/// start with a gzip header, unchanged otherwise.
pub fn decode_value(value: &[u8]) -> (r: Result<Vec<u8>, DecodeError>)
    ensures
        match r {
            Ok(wire) => decoded(value@) == Ok::<Seq<u8>, DecodeError>(wire@),
            Err(e) => decoded(value@) == Err::<Seq<u8>, DecodeError>(e),
        },
{
    if gzip_header_present(value) {
        decompressed(gunzip(value))
    } else {
        Ok(slice_to_vec(value))
    }
}

} // verus!
