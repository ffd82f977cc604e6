//! Decoding a chunk payload record into its structured tree.
//!
//! A record's payload is a 1-byte compression tag followed by the (possibly
//! compressed) bytes of exactly one binary tree. The tree decoder itself is
//! an outside collaborator; everything around it - tag dispatch, the
//! no-trailing-bytes rule, the error taxonomy - is decided here.

use vstd::prelude::*;
use crate::compress::{decompress_payload, gzip_inflate, zlib_inflate};
use crate::error::ReadChunkError;

verus! {

/// The declared external type of the decoded tree: a map from string names
/// to typed values. Opaque here; it is carried through, never inspected.
#[verifier::external_type_specification]
#[verifier::external_body]
#[verifier::reject_recursive_types(S)]
pub struct ExCompound<S>(valence_nbt::Compound<S>);

/// Relies on valence_nbt's derived `Clone` for `Compound`: cloning a tree
/// is accepted with nothing assumed of the copy.
pub assume_specification<S>[ <valence_nbt::Compound<S> as std::clone::Clone>::clone ](
    _0: &valence_nbt::Compound<S>,
) -> valence_nbt::Compound<S>
    where
        S: std::clone::Clone,
;

/// How many leading bytes of `s` one complete binary tree occupies, or
/// `None` where `s` does not start with a well-formed tree. The result
/// depends on the bytes alone.
pub uninterp spec fn nbt_parse_len(s: Seq<u8>) -> Option<int>;

/// Relies on valence_nbt::from_binary: decodes one tree from the front of
/// the slice, advances the slice past it, and reports a syntax error on
/// malformed input.
#[verifier::external_body]
fn nbt_from_bytes<'a>(bytes: &'a [u8]) -> (r: Result<
    (valence_nbt::Compound, &'a [u8]),
    valence_nbt::binary::Error,
>)
    ensures
        r is Ok <==> nbt_parse_len(bytes@) is Some,
        r matches Ok(p) ==> {
            let n = nbt_parse_len(bytes@).unwrap();
            &&& 0 <= n <= bytes@.len()
            &&& p.1@ == bytes@.subrange(n, bytes@.len() as int)
        },
{
    let mut slice: &[u8] = bytes;
    match valence_nbt::from_binary::<String>(&mut slice) {
        Ok((tree, _root_name)) => Ok((tree, slice)),
        Err(e) => Err(e),
    }
}

/// Relies on std::io::Error::new: an unexpected-end-of-file error, for a
/// payload too short to hold its compression tag.
#[verifier::external_body]
fn eof_error() -> std::io::Error {
    std::io::Error::new(std::io::ErrorKind::UnexpectedEof, "failed to fill whole buffer")
}

/// A decoded chunk: its structured tree and the timestamp stored beside it
/// in the region header, in seconds since the epoch.
#[derive(Clone, PartialEq, Debug)]
pub struct AnvilChunk {
    /// This chunk's decoded tree.
    pub data: valence_nbt::Compound,
    /// The time this chunk was last modified, in seconds since the epoch.
    pub timestamp: u32,
}

/// What decoding `bytes` as exactly one tree must yield: the tree on a full
/// parse, the decoder's own error on a syntax error, and the trailing-bytes
/// error where a tree parses but does not consume everything.
pub open spec fn spec_tree_outcome(
    r: Result<AnvilChunk, ReadChunkError>,
    bytes: Seq<u8>,
    timestamp: u32,
) -> bool {
    match nbt_parse_len(bytes) {
        None => r matches Err(e) && e is Nbt,
        Some(n) => if n == bytes.len() {
            r matches Ok(c) && c.timestamp == timestamp
        } else {
            r matches Err(e) && e is IncompleteNbtRead
        },
    }
}

/// Decodes `bytes` as exactly one complete tree. Trailing bytes after the
/// tree are corruption: the payload must be one tree and nothing more.
pub fn decode_tree(bytes: &[u8], timestamp: u32) -> (r: Result<AnvilChunk, ReadChunkError>)
    ensures
        spec_tree_outcome(r, bytes@, timestamp),
{
    match nbt_from_bytes(bytes) {
        Err(e) => Err(ReadChunkError::Nbt(e)),
        Ok((tree, rest)) => {
            if rest.len() != 0 {
                Err(ReadChunkError::IncompleteNbtRead)
            } else {
                Ok(AnvilChunk { data: tree, timestamp })
            }
        },
    }
}

/// Decodes a whole payload record body: the leading compression tag, the
/// decompression it names, then exactly one tree. An empty payload cannot
/// hold a tag and surfaces as an I/O failure, as a short read would.
pub fn decode_chunk_payload(payload: &[u8], timestamp: u32) -> (r: Result<
    AnvilChunk,
    ReadChunkError,
>)
    ensures
        payload@.len() == 0 ==> (r matches Err(e) && e is Io),
        payload@.len() > 0 ==> {
            let scheme = payload@[0];
            let body = payload@.subrange(1, payload@.len() as int);
            &&& scheme == 1 ==> match gzip_inflate(body) {
                Some(out) => spec_tree_outcome(r, out, timestamp),
                None => r matches Err(e) && e is Io,
            }
            &&& scheme == 2 ==> match zlib_inflate(body) {
                Some(out) => spec_tree_outcome(r, out, timestamp),
                None => r matches Err(e) && e is Io,
            }
            &&& scheme == 3 ==> spec_tree_outcome(r, body, timestamp)
            &&& scheme != 1 && scheme != 2 && scheme != 3 ==> (r matches Err(e)
                && e matches ReadChunkError::UnknownCompressionScheme(b) && b == scheme)
        },
{
    if payload.len() == 0 {
        return Err(ReadChunkError::Io(eof_error()));
    }
    let scheme = payload[0];
    let body = &payload[1..payload.len()];
    if scheme == 1 || scheme == 2 {
        match decompress_payload(scheme, body) {
            Ok(out) => decode_tree(out.as_slice(), timestamp),
            Err(e) => Err(e),
        }
    } else if scheme == 3 {
        decode_tree(body, timestamp)
    } else {
        Err(ReadChunkError::UnknownCompressionScheme(scheme))
    }
}

} // verus!
