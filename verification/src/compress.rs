//! The compression adapter: a chunk payload names one of three schemes in
//! its leading tag byte. Scheme 1 is a gzip-framed stream, scheme 2 a
//! zlib-framed stream, scheme 3 raw bytes; every other tag is rejected.

use vstd::prelude::*;
use vstd::slice::slice_to_vec;
use crate::error::ReadChunkError;

verus! {

/// What inflating `s` as a gzip-framed stream yields, or `None` where the
/// stream is malformed. The result depends on the bytes alone.
pub uninterp spec fn gzip_inflate(s: Seq<u8>) -> Option<Seq<u8>>;

/// What inflating `s` as a zlib-framed stream yields, or `None` where the
/// stream is malformed. The result depends on the bytes alone.
pub uninterp spec fn zlib_inflate(s: Seq<u8>) -> Option<Seq<u8>>;

/// Relies on flate2's `GzDecoder` with `Read::read_to_end`: inflates the
/// whole gzip-framed stream into a buffer, or reports an I/O error on a
/// malformed stream.
#[verifier::external_body]
fn gzip_decompress(data: &[u8]) -> (r: Result<Vec<u8>, std::io::Error>)
    ensures
        r is Ok <==> gzip_inflate(data@) is Some,
        r matches Ok(v) ==> v@ == gzip_inflate(data@).unwrap(),
{
    let mut out = Vec::new();
    let mut z = flate2::bufread::GzDecoder::new(data);
    match std::io::Read::read_to_end(&mut z, &mut out) {
        Ok(_) => Ok(out),
        Err(e) => Err(e),
    }
}

/// Relies on flate2's `ZlibDecoder` with `Read::read_to_end`: inflates the
/// whole zlib-framed stream into a buffer, or reports an I/O error on a
/// malformed stream.
#[verifier::external_body]
fn zlib_decompress(data: &[u8]) -> (r: Result<Vec<u8>, std::io::Error>)
    ensures
        r is Ok <==> zlib_inflate(data@) is Some,
        r matches Ok(v) ==> v@ == zlib_inflate(data@).unwrap(),
{
    let mut out = Vec::new();
    let mut z = flate2::bufread::ZlibDecoder::new(data);
    match std::io::Read::read_to_end(&mut z, &mut out) {
        Ok(_) => Ok(out),
        Err(e) => Err(e),
    }
}

/// Decompresses a payload body under the scheme its tag byte named.
/// Unknown tags are rejected, and the offending tag is preserved in the
/// error; a malformed stream surfaces as an I/O failure.
pub fn decompress_payload(scheme: u8, data: &[u8]) -> (r: Result<Vec<u8>, ReadChunkError>)
    ensures
        scheme == 1 ==> match gzip_inflate(data@) {
            Some(out) => r matches Ok(v) && v@ == out,
            None => r matches Err(e) && e is Io,
        },
        scheme == 2 ==> match zlib_inflate(data@) {
            Some(out) => r matches Ok(v) && v@ == out,
            None => r matches Err(e) && e is Io,
        },
        scheme == 3 ==> (r matches Ok(v) && v@ == data@),
        scheme != 1 && scheme != 2 && scheme != 3 ==> (r matches Err(e)
            && e matches ReadChunkError::UnknownCompressionScheme(b) && b == scheme),
{
    match scheme {
        1 => match gzip_decompress(data) {
            Ok(v) => Ok(v),
            Err(e) => Err(ReadChunkError::Io(e)),
        },
        2 => match zlib_decompress(data) {
            Ok(v) => Ok(v),
            Err(e) => Err(ReadChunkError::Io(e)),
        },
        3 => Ok(slice_to_vec(data)),
        b => Err(ReadChunkError::UnknownCompressionScheme(b)),
    }
}

} // verus!
