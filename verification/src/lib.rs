//! Chunk-oriented storage for region files: resolves chunk coordinates to an
//! on-disk region file and byte offset, keeps a bounded cache of open region
//! handles, and decodes each chunk's compressed binary payload.

pub mod block;
pub mod cache;
pub mod chunk;
pub mod packet;
pub mod compress;
pub mod error;
pub mod header;
pub mod pos;
