use crab_nbt::{Nbt, NbtCompound, NbtTag};
use rusty_anvil::error::ChunkLoadError;
use rusty_anvil::metadata::LocationTableEntry;
use rusty_anvil::chunks::ChunkStatus;
use rusty_anvil::RegionFileReader;

fn simple_chunk_nbt() -> Vec<u8> {
    let mut root = NbtCompound::new();
    root.put("Status".to_string(), "minecraft:full".to_string());
    root.put("Heightmaps".to_string(), NbtCompound::new());
    Nbt::new(String::new(), root).write().to_vec()
}

fn frame_sector(tag: u8, compressed: &[u8]) -> Vec<u8> {
    let n = (compressed.len() + 1) as u32;
    let mut out = Vec::new();
    out.extend_from_slice(&n.to_be_bytes());
    out.push(tag);
    out.extend_from_slice(compressed);
    while out.len() % 4096 != 0 {
        out.push(0);
    }
    out
}

/// A region with one chunk in slot (0,0), stored at sector 2.
fn region_with_chunk(tag: u8, compressed: &[u8]) -> Vec<u8> {
    let mut image = vec![0u8; 8192];
    image[0] = 0;
    image[1] = 0;
    image[2] = 2;
    image[3] = (frame_sector(tag, compressed).len() / 4096) as u8;
    image.extend_from_slice(&frame_sector(tag, compressed));
    image
}

#[test]
fn empty_region_lookup() {
    let reader = RegionFileReader::create(vec![0u8; 8192]).unwrap();
    for x in 0..32u8 {
        for z in 0..32u8 {
            assert!(matches!(
                reader.get_chunk(x, z),
                Err(ChunkLoadError::ChunkDoesNotExist)
            ));
            assert_eq!(reader.get_timestamp(x, z), Some(0));
        }
    }
}

#[test]
fn short_image_is_rejected() {
    assert!(matches!(
        RegionFileReader::create(vec![0u8; 100]),
        Err(ChunkLoadError::IOError(_))
    ));
    assert!(matches!(
        RegionFileReader::create(vec![0u8; 8191]),
        Err(ChunkLoadError::IOError(_))
    ));
    assert!(RegionFileReader::create(vec![0u8; 8192]).is_ok());
}

#[test]
fn missing_chunk_slot() {
    let image = region_with_chunk(3, &simple_chunk_nbt());
    let reader = RegionFileReader::create(image).unwrap();
    assert!(matches!(
        reader.get_chunk(1, 0),
        Err(ChunkLoadError::ChunkDoesNotExist)
    ));
    let chunk = reader.get_chunk(0, 0).unwrap();
    assert_eq!(chunk.status, ChunkStatus::Full);
}

#[test]
fn bad_compression_tag() {
    let mut image = vec![0u8; 8192];
    image[2] = 2;
    image[3] = 1;
    let mut sector = vec![0u8; 4096];
    sector[0] = 0x00;
    sector[1] = 0x00;
    sector[2] = 0x00;
    sector[3] = 0x10;
    sector[4] = 0x7F;
    image.extend_from_slice(&sector);
    let reader = RegionFileReader::create(image).unwrap();
    assert!(matches!(
        reader.get_chunk(0, 0),
        Err(ChunkLoadError::UnknownCompressionFormat(127))
    ));
}

#[test]
fn zero_length_frame_is_malformed() {
    let mut image = vec![0u8; 8192];
    image[2] = 2;
    image[3] = 1;
    image.extend_from_slice(&vec![0u8; 4096]);
    let reader = RegionFileReader::create(image).unwrap();
    assert!(matches!(
        reader.get_chunk(0, 0),
        Err(ChunkLoadError::MalformedChunk(_))
    ));
}

#[test]
fn truncated_nbt_is_an_error_not_a_crash() {
    // an uncompressed frame whose payload is just the tag byte: the NBT
    // stream handed to the parser is empty
    let mut image = vec![0u8; 8192];
    image[2] = 2;
    image[3] = 1;
    let mut sector = vec![0u8; 4096];
    sector[3] = 0x01; // declared length 1: compression tag only
    sector[4] = 3; // uncompressed
    image.extend_from_slice(&sector);
    let reader = RegionFileReader::create(image).unwrap();
    assert!(matches!(
        reader.get_chunk(0, 0),
        Err(ChunkLoadError::MalformedNbt(_))
    ));
    // an NBT stream that stops in the middle of the root's name
    let mut image2 = vec![0u8; 8192];
    image2[2] = 2;
    image2[3] = 1;
    let mut sector2 = vec![0u8; 4096];
    sector2[3] = 0x04; // declared length 4: tag byte + 3 payload bytes
    sector2[4] = 3;
    sector2[5] = 10; // compound root
    sector2[6] = 0xFF; // name length 0xFFFF, far past the buffer
    sector2[7] = 0xFF;
    image2.extend_from_slice(&sector2);
    let reader2 = RegionFileReader::create(image2).unwrap();
    assert!(matches!(
        reader2.get_chunk(0, 0),
        Err(ChunkLoadError::MalformedNbt(_))
    ));
}

#[test]
fn span_outside_file_is_io_error() {
    let mut image = vec![0u8; 8192];
    image[2] = 7;
    image[3] = 1;
    let reader = RegionFileReader::create(image).unwrap();
    assert!(matches!(
        reader.get_chunk(0, 0),
        Err(ChunkLoadError::IOError(_))
    ));
}

#[test]
fn zlib_chunk_roundtrip() {
    let nbt = simple_chunk_nbt();
    let mut enc =
        flate2::write::ZlibEncoder::new(Vec::new(), flate2::Compression::default());
    std::io::Write::write_all(&mut enc, &nbt).unwrap();
    let compressed = enc.finish().unwrap();
    assert_ne!(compressed, nbt);
    let reader = RegionFileReader::create(region_with_chunk(2, &compressed)).unwrap();
    let chunk = reader.get_chunk(0, 0).unwrap();
    assert_eq!(chunk.status, ChunkStatus::Full);
}

#[test]
fn gzip_chunk_roundtrip() {
    let nbt = simple_chunk_nbt();
    let mut enc = flate2::write::GzEncoder::new(Vec::new(), flate2::Compression::default());
    std::io::Write::write_all(&mut enc, &nbt).unwrap();
    let compressed = enc.finish().unwrap();
    let reader = RegionFileReader::create(region_with_chunk(1, &compressed)).unwrap();
    let chunk = reader.get_chunk(0, 0).unwrap();
    assert_eq!(chunk.status, ChunkStatus::Full);
}

#[test]
fn lz4_chunk_roundtrip() {
    let nbt = simple_chunk_nbt();
    let mut enc = lz4::EncoderBuilder::new().build(Vec::new()).unwrap();
    std::io::Write::write_all(&mut enc, &nbt).unwrap();
    let (compressed, result) = enc.finish();
    result.unwrap();
    let reader = RegionFileReader::create(region_with_chunk(4, &compressed)).unwrap();
    let chunk = reader.get_chunk(0, 0).unwrap();
    assert_eq!(chunk.status, ChunkStatus::Full);
}

#[test]
fn timestamps_are_big_endian_per_slot() {
    let mut image = vec![0u8; 8192];
    // slot (3, 1): index 35, timestamp entry at 4096 + 4 * 35
    let idx = 4096 + 4 * 35;
    image[idx] = 0x00;
    image[idx + 1] = 0x01;
    image[idx + 2] = 0x02;
    image[idx + 3] = 0x03;
    // slot (4, 1): a negative timestamp
    let idx2 = 4096 + 4 * 36;
    image[idx2] = 0xFF;
    image[idx2 + 1] = 0xFF;
    image[idx2 + 2] = 0xFF;
    image[idx2 + 3] = 0xFE;
    let reader = RegionFileReader::create(image).unwrap();
    assert_eq!(reader.get_timestamp(3, 1), Some(0x010203));
    assert_eq!(reader.get_timestamp(4, 1), Some(-2));
    assert_eq!(reader.get_chunk_metadata(3, 1).last_updated, 0x010203);
    assert_eq!(reader.get_timestamps().entries().len(), 1024);
    // far out of range: index 255*32+255 = 8415 >= 1024
    assert_eq!(reader.get_timestamp(255, 255), None);
}

#[test]
fn locator_offset_form() {
    let e = LocationTableEntry::from_bytes(&[0, 0, 2, 1]);
    assert!(!e.is_empty());
    let (offset, length) = e.to_offset_form();
    assert_eq!(offset, 8192);
    assert_eq!(length, 4096);
    assert_eq!(offset % 4096, 0);
    assert_eq!(length % 4096, 0);
    let big = LocationTableEntry::from_bytes(&[0x01, 0x02, 0x03, 0x05]);
    let (offset2, length2) = big.to_offset_form();
    assert_eq!(offset2, 0x010203u64 * 4096);
    assert_eq!(length2, 5 * 4096);
    assert!(LocationTableEntry::from_bytes(&[0, 0, 0, 0]).is_empty());
    assert!(!LocationTableEntry::from_bytes(&[0, 0, 1, 0]).is_empty());
}
