//! Chunk and region coordinates.
//!
//! A region file aggregates a 32 x 32 grid of chunks. A chunk's region is
//! found by floor-dividing each coordinate by 32; its slot inside the region
//! header is `(x mod 32) + (z mod 32) * 32` with the always-non-negative
//! (Euclidean) remainder.

use vstd::prelude::*;

verus! {

/// The position of a chunk column in the world, in absolute chunk coordinates.
#[derive(Clone, Copy, PartialEq, Eq, Structural, Debug)]
pub struct ChunkPos {
    pub x: i32,
    pub z: i32,
}

impl ChunkPos {
    pub fn new(x: i32, z: i32) -> (r: ChunkPos)
        ensures
            r.x == x,
            r.z == z,
    {
        ChunkPos { x, z }
    }
}

/// The region that holds `pos`: each coordinate floor-divided by 32.
pub open spec fn spec_region_of(pos: ChunkPos) -> (int, int) {
    (pos.x as int / 32, pos.z as int / 32)
}

/// The slot of `pos` inside its region's header tables.
pub open spec fn spec_chunk_index(pos: ChunkPos) -> int {
    pos.x as int % 32 + (pos.z as int % 32) * 32
}

/// Maps a chunk position to the coordinate of the region file that holds it.
pub fn chunk_pos_to_region(pos: ChunkPos) -> (r: (i32, i32))
    ensures
        (r.0 as int, r.1 as int) == spec_region_of(pos),
{
    let rx = match pos.x.checked_div_euclid(32) {
        Some(v) => v,
        None => 0,
    };
    let rz = match pos.z.checked_div_euclid(32) {
        Some(v) => v,
        None => 0,
    };
    (rx, rz)
}

/// The index of `pos` in the 1024-entry location and timestamp tables of its
/// region's header. Always in `[0, 1024)`.
pub fn chunk_index(pos: ChunkPos) -> (r: usize)
    ensures
        r as int == spec_chunk_index(pos),
        r < 1024,
{
    let mx = match pos.x.checked_rem_euclid(32) {
        Some(v) => v,
        None => 0,
    };
    let mz = match pos.z.checked_rem_euclid(32) {
        Some(v) => v,
        None => 0,
    };
    (mx + mz * 32) as usize
}

/// The in-region index never leaves the header tables' bounds.
pub proof fn lemma_chunk_index_in_range(pos: ChunkPos)
    ensures
        0 <= spec_chunk_index(pos) < 1024,
{
}

/// Two chunks of one region with distinct header slots are distinct chunks,
/// and two chunks of one region with distinct positions sit in distinct
/// header slots: within a region, position and slot determine each other.
pub proof fn lemma_chunk_index_injective(a: ChunkPos, b: ChunkPos)
    requires
        spec_region_of(a) == spec_region_of(b),
        spec_chunk_index(a) == spec_chunk_index(b),
    ensures
        a == b,
{
    assert(a.x == a.x as int / 32 * 32 + a.x as int % 32);
    assert(b.x == b.x as int / 32 * 32 + b.x as int % 32);
    assert(a.z == a.z as int / 32 * 32 + a.z as int % 32);
    assert(b.z == b.z as int / 32 * 32 + b.z as int % 32);
    assert(a.x as int % 32 == b.x as int % 32 && a.z as int % 32 == b.z as int % 32) by {
        assert(0 <= a.x as int % 32 < 32 && 0 <= b.x as int % 32 < 32);
        assert(0 <= a.z as int % 32 < 32 && 0 <= b.z as int % 32 < 32);
    };
}

} // verus!
