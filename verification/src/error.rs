//! The error taxonomy of the chunk read path.
//!
//! "Chunk absent" is never an error: it is reported through `Option` by the
//! functions that can meet it. Everything here is a genuine failure: an I/O
//! fault, a syntax error from the binary-tree decoder, or one of the four
//! corruption conditions of the region format.

use vstd::prelude::*;

verus! {

/// An I/O error as std reports it. Declared so that verified code can carry
/// one through; nothing is assumed about its contents.
#[verifier::external_type_specification]
#[verifier::external_body]
pub struct ExIoError(std::io::Error);

/// A syntax error of the binary-tree decoder. Declared so that verified code
/// can carry one through; nothing is assumed about its contents.
#[verifier::external_type_specification]
#[verifier::external_body]
pub struct ExNbtError(valence_nbt::binary::Error);

/// Why a chunk could not be read.
#[derive(Debug)]
pub enum ReadChunkError {
    /// An I/O failure, propagated unchanged.
    Io(std::io::Error),
    /// The binary-tree decoder rejected the payload, propagated unchanged.
    Nbt(valence_nbt::binary::Error),
    /// The location word places the chunk inside the region header.
    BadSectorOffset,
    /// The payload's declared length exceeds its reserved sector span.
    BadChunkSize,
    /// The payload names a compression scheme that is not 1, 2 or 3.
    UnknownCompressionScheme(u8),
    /// The payload held trailing bytes after one complete tree.
    IncompleteNbtRead,
}

} // verus!
