//! The region header: two 4096-byte sectors at the start of every region
//! file. Bytes `[0, 4096)` hold 1024 big-endian location words, bytes
//! `[4096, 8192)` the parallel 1024 big-endian timestamps.
//!
//! A location word of 0 means "chunk absent". Otherwise its top 24 bits are a
//! sector offset counted from the file start and its low 8 bits a sector
//! count; an offset below 2 would place the chunk inside the header itself
//! and is corruption, not absence.

use vstd::prelude::*;
use crate::error::ReadChunkError;

verus! {

/// The fixed allocation unit of a region file, in bytes.
pub const SECTOR_SIZE: usize = 4096;

/// The byte length of a region header: location table plus timestamp table.
pub const HEADER_SIZE: usize = 8192;

/// The big-endian 32-bit word at offset `off` of `s`.
pub open spec fn spec_be_u32(s: Seq<u8>, off: int) -> int {
    s[off] * 0x100_0000 + s[off + 1] * 0x1_0000 + s[off + 2] * 0x100 + s[off + 3]
}

/// Reads the big-endian 32-bit word at byte offset `off`.
pub fn read_be_u32(bytes: &[u8], off: usize) -> (r: u32)
    requires
        off + 4 <= bytes@.len(),
    ensures
        r as int == spec_be_u32(bytes@, off as int),
{
    let b0 = bytes[off] as u32;
    let b1 = bytes[off + 1] as u32;
    let b2 = bytes[off + 2] as u32;
    let b3 = bytes[off + 3] as u32;
    b0 * 0x100_0000 + b1 * 0x1_0000 + b2 * 0x100 + b3
}

/// The sector offset held in a location word: its top 24 bits.
pub open spec fn spec_sector_offset(word: u32) -> int {
    word as int / 256
}

/// The sector count held in a location word: its low 8 bits.
pub open spec fn spec_sector_count(word: u32) -> int {
    word as int % 256
}

/// Where a present chunk's payload record sits: a sector offset counted from
/// the file start and the number of sectors reserved for the record.
#[derive(Clone, Copy, PartialEq, Eq, Structural, Debug)]
pub struct ChunkLocation {
    pub sector_offset: u32,
    pub sector_count: u32,
}

impl ChunkLocation {
    /// A location decoded from a word is always in this shape.
    pub open spec fn wf(self) -> bool {
        &&& 2 <= self.sector_offset < 0x100_0000
        &&& self.sector_count < 256
    }

    /// The byte offset of the chunk's payload record in the region file.
    pub fn byte_offset(&self) -> (r: u64)
        requires
            self.wf(),
        ensures
            r == self.sector_offset * SECTOR_SIZE,
    {
        self.sector_offset as u64 * SECTOR_SIZE as u64
    }

    /// The largest payload length the reserved sector span can hold.
    pub fn max_payload_len(&self) -> (r: u32)
        requires
            self.wf(),
        ensures
            r == self.sector_count * SECTOR_SIZE,
    {
        self.sector_count * SECTOR_SIZE as u32
    }
}

/// Decodes a location word. A word of 0 is "chunk absent"; a sector offset
/// below 2 is corruption; anything else locates the payload record.
pub fn chunk_location(word: u32) -> (r: Result<Option<ChunkLocation>, ReadChunkError>)
    ensures
        word == 0 ==> (r matches Ok(o) && o is None),
        word != 0 && spec_sector_offset(word) < 2 ==> (r matches Err(e) && e is BadSectorOffset),
        word != 0 && spec_sector_offset(word) >= 2 ==> (r matches Ok(o) && o matches Some(loc)
            && loc.sector_offset == spec_sector_offset(word)
            && loc.sector_count == spec_sector_count(word)
            && loc.wf()),
{
    if word == 0 {
        return Ok(None);
    }
    let sector_offset = word / 256;
    let sector_count = word % 256;
    if sector_offset < 2 {
        // The first two sectors are the header itself: a chunk cannot sit
        // there.
        return Err(ReadChunkError::BadSectorOffset);
    }
    Ok(Some(ChunkLocation { sector_offset, sector_count }))
}

/// Checks the payload length a record declares against the sector span the
/// location word reserves for it.
pub fn check_payload_len(declared_len: u32, loc: &ChunkLocation) -> (r: Result<(), ReadChunkError>)
    requires
        loc.wf(),
    ensures
        declared_len > loc.sector_count * SECTOR_SIZE ==> (r matches Err(e) && e is BadChunkSize),
        declared_len <= loc.sector_count * SECTOR_SIZE ==> r matches Ok(_),
{
    if declared_len > loc.max_payload_len() {
        Err(ReadChunkError::BadChunkSize)
    } else {
        Ok(())
    }
}

} // verus!
