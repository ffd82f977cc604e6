use std::io::Write;

use anvil_store::cache::RegionCache;
use anvil_store::chunk::decode_chunk_payload;
use anvil_store::error::ReadChunkError;
use anvil_store::header::{check_payload_len, chunk_location, ChunkLocation};
use anvil_store::pos::{chunk_index, chunk_pos_to_region, ChunkPos};

fn sample_tree() -> valence_nbt::Compound {
    let mut c = valence_nbt::Compound::new();
    c.insert("answer", 42i32);
    c.insert("name", "stone");
    c
}

fn sample_tree_bytes() -> Vec<u8> {
    let mut buf = Vec::new();
    valence_nbt::to_binary(&sample_tree(), &mut buf, "").unwrap();
    buf
}

#[test]
fn chunk_index_in_bounds() {
    for &(x, z) in &[(0, 0), (-1, -1), (31, 31), (32, 32), (-33, 17), (i32::MIN, i32::MAX)] {
        let idx = chunk_index(ChunkPos::new(x, z));
        assert!(idx < 1024);
    }
    assert_eq!(chunk_index(ChunkPos::new(0, 0)), 0);
    assert_eq!(chunk_index(ChunkPos::new(-1, -1)), 31 + 31 * 32);
    assert_eq!(chunk_index(ChunkPos::new(33, 1)), 1 + 32);
}

#[test]
fn region_resolution_floors() {
    assert_eq!(chunk_pos_to_region(ChunkPos::new(0, 0)), (0, 0));
    assert_eq!(chunk_pos_to_region(ChunkPos::new(31, 31)), (0, 0));
    assert_eq!(chunk_pos_to_region(ChunkPos::new(32, -1)), (1, -1));
    assert_eq!(chunk_pos_to_region(ChunkPos::new(-33, 64)), (-2, 2));
}

#[test]
fn zero_location_word_means_absent() {
    assert!(matches!(chunk_location(0), Ok(None)));
}

#[test]
fn low_sector_offset_is_corruption() {
    // sector offsets 0 and 1 would sit inside the header
    assert!(matches!(chunk_location(1 << 8 | 1), Err(ReadChunkError::BadSectorOffset)));
    assert!(matches!(chunk_location(0x0000_0001), Err(ReadChunkError::BadSectorOffset)));
    let loc = chunk_location(2 << 8 | 1).unwrap().unwrap();
    assert_eq!(loc.sector_offset, 2);
    assert_eq!(loc.sector_count, 1);
    assert_eq!(loc.byte_offset(), 8192);
}

#[test]
fn oversized_payload_is_corruption() {
    let loc = ChunkLocation { sector_offset: 2, sector_count: 1 };
    assert!(matches!(check_payload_len(4097, &loc), Err(ReadChunkError::BadChunkSize)));
    assert!(matches!(check_payload_len(4096, &loc), Ok(())));
    assert!(matches!(check_payload_len(50, &loc), Ok(())));
}

#[test]
fn unknown_compression_scheme_is_preserved() {
    let payload = vec![7u8, 1, 2, 3];
    assert!(matches!(
        decode_chunk_payload(&payload, 0),
        Err(ReadChunkError::UnknownCompressionScheme(7))
    ));
    let payload = vec![0u8];
    assert!(matches!(
        decode_chunk_payload(&payload, 0),
        Err(ReadChunkError::UnknownCompressionScheme(0))
    ));
}

#[test]
fn empty_payload_is_io_error() {
    let payload: Vec<u8> = Vec::new();
    assert!(matches!(decode_chunk_payload(&payload, 0), Err(ReadChunkError::Io(_))));
}

#[test]
fn uncompressed_round_trip() {
    let tree_bytes = sample_tree_bytes();
    let mut payload = vec![3u8];
    payload.extend_from_slice(&tree_bytes);
    let chunk = decode_chunk_payload(&payload, 777).unwrap();
    assert_eq!(chunk.data, sample_tree());
    assert_eq!(chunk.timestamp, 777);
}

#[test]
fn gzip_and_zlib_round_trip() {
    let tree_bytes = sample_tree_bytes();

    let mut gz = flate2::write::GzEncoder::new(Vec::new(), flate2::Compression::default());
    gz.write_all(&tree_bytes).unwrap();
    let mut payload = vec![1u8];
    payload.extend_from_slice(&gz.finish().unwrap());
    let chunk = decode_chunk_payload(&payload, 1).unwrap();
    assert_eq!(chunk.data, sample_tree());

    let mut zl = flate2::write::ZlibEncoder::new(Vec::new(), flate2::Compression::default());
    zl.write_all(&tree_bytes).unwrap();
    let mut payload = vec![2u8];
    payload.extend_from_slice(&zl.finish().unwrap());
    let chunk = decode_chunk_payload(&payload, 2).unwrap();
    assert_eq!(chunk.data, sample_tree());
}

#[test]
fn trailing_bytes_are_rejected() {
    let mut payload = vec![3u8];
    payload.extend_from_slice(&sample_tree_bytes());
    payload.push(0);
    assert!(matches!(decode_chunk_payload(&payload, 0), Err(ReadChunkError::IncompleteNbtRead)));
}

#[test]
fn malformed_tree_is_decoder_error() {
    let payload = vec![3u8, 9, 9, 9];
    assert!(matches!(decode_chunk_payload(&payload, 0), Err(ReadChunkError::Nbt(_))));
}

fn header_with_entry(idx: usize, word: u32, timestamp: u32) -> Vec<u8> {
    let mut h = vec![0u8; 8192];
    h[idx * 4..idx * 4 + 4].copy_from_slice(&word.to_be_bytes());
    h[4096 + idx * 4..4096 + idx * 4 + 4].copy_from_slice(&timestamp.to_be_bytes());
    h
}

#[test]
fn header_words_read_back() {
    let mut cache: RegionCache<u8> = RegionCache::new(4, 1000);
    let header = header_with_entry(0, 2 << 8 | 1, 12345);
    cache.insert_region(0, 0, 0u8, header, 0);
    assert!(cache.contains_region(0, 0));
    assert_eq!(cache.location_word(0, 0, 0), 2 << 8 | 1);
    assert_eq!(cache.timestamp_word(0, 0, 0), 12345);
    assert_eq!(cache.location_word(0, 0, 1), 0);
}

#[test]
fn well_formed_record_decodes_with_parallel_timestamp() {
    // a region whose header places one chunk at sector 2, one sector long
    let mut cache: RegionCache<u8> = RegionCache::new(4, 1000);
    let pos = ChunkPos::new(0, 0);
    let idx = chunk_index(pos);
    let (rx, rz) = chunk_pos_to_region(pos);
    cache.insert_region(rx, rz, 0u8, header_with_entry(idx, 2 << 8 | 1, 424242), 0);
    let word = cache.location_word(rx, rz, idx);
    let ts = cache.timestamp_word(rx, rz, idx);
    let loc = chunk_location(word).unwrap().unwrap();
    assert_eq!(loc.byte_offset(), 2 * 4096);
    let tree_bytes = sample_tree_bytes();
    let declared_len = (tree_bytes.len() + 1) as u32;
    assert!(declared_len <= 50);
    check_payload_len(declared_len, &loc).unwrap();
    let mut payload = vec![3u8];
    payload.extend_from_slice(&tree_bytes);
    let chunk = decode_chunk_payload(&payload, ts).unwrap();
    assert_eq!(chunk.timestamp, 424242);
    assert_eq!(chunk.data, sample_tree());
}

#[test]
fn cache_never_exceeds_capacity() {
    let mut cache: RegionCache<u8> = RegionCache::new(2, 1_000_000);
    let mut open = 0usize;
    for i in 0..10 {
        if !cache.contains_region(i, 0) {
            cache.insert_region(i, 0, 0u8, vec![0u8; 8192], i as u64);
        }
        open = 0;
        for j in 0..10 {
            if cache.contains_region(j, 0) {
                open += 1;
            }
        }
        assert!(open <= 2);
    }
    assert!(open >= 1);
}

#[test]
fn idle_region_is_swept_under_pressure() {
    let mut cache: RegionCache<u8> = RegionCache::new(1, 10);
    cache.insert_region(0, 0, 0u8, vec![0u8; 8192], 0);
    assert!(cache.contains_region(0, 0));
    // idle for the whole retention duration: the next pressure event sweeps
    cache.insert_region(1, 0, 0u8, vec![0u8; 8192], 20);
    assert!(cache.contains_region(1, 0));
    assert!(!cache.contains_region(0, 0));
}

#[test]
fn forced_random_eviction_still_loads() {
    let mut cache: RegionCache<u8> = RegionCache::new(1, 1_000_000);
    cache.insert_region(0, 0, 0u8, vec![0u8; 8192], 0);
    // the first region is still within retention: pressure must fall back
    // to the forced random eviction and the new region must load
    cache.insert_region(1, 0, 0u8, vec![0u8; 8192], 1);
    assert!(cache.contains_region(1, 0));
    assert!(!cache.contains_region(0, 0));
}

#[test]
fn touch_refreshes_last_use() {
    let mut cache: RegionCache<u8> = RegionCache::new(1, 10);
    cache.insert_region(0, 0, 0u8, vec![0u8; 8192], 0);
    // an access at time 15 keeps the region alive at time 20
    cache.touch(0, 0, 15);
    cache.insert_region(1, 0, 0u8, vec![0u8; 8192], 20);
    assert!(cache.contains_region(1, 0));
}