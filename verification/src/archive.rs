//! Decompression of the embedded payloads, which are shipped gzipped.

use vstd::prelude::*;
use std::io::Read;

verus! {

/// What decoding a gzip stream yields: the decompressed bytes, or nothing
/// when the input is not a valid gzip stream.
pub uninterp spec fn gunzip_of(data: Seq<u8>) -> Option<Seq<u8>>;

/// Relies on flate2::read::GzDecoder driven by std::io::Read::read_to_end:
/// decoding a gzip stream held fully in memory depends on the input bytes
/// alone, and fails exactly on input that is not a valid gzip stream.
#[verifier::external_body]
fn gz_decode(data: &[u8]) -> (r: Option<Vec<u8>>)
    ensures
        match r {
            Some(v) => gunzip_of(data@) == Some(v@),
            None => gunzip_of(data@) is None,
        },
{
    let mut decoder = flate2::read::GzDecoder::new(data);
    let mut out = Vec::new();
    match decoder.read_to_end(&mut out) {
        Ok(_) => Some(out),
        Err(_) => None,
    }
}

/// Decompresses an embedded gzipped payload; fails exactly when the bytes
/// are not a valid gzip stream.
pub fn decompress(data: &[u8]) -> (r: Result<Vec<u8>, String>)
    ensures
        match r {
            Ok(v) => gunzip_of(data@) == Some(v@),
            Err(_) => gunzip_of(data@) is None,
        },
{
    match gz_decode(data) {
        Some(v) => Ok(v),
        None => Err(String::from_str("failed to decompress payload")),
    }
}

} // verus!
