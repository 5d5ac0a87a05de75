use crab_nbt::{Nbt, NbtCompound, NbtTag};
use rusty_anvil::error::ChunkLoadError;
use rusty_anvil::chunks::iterators::BlockIter;
use rusty_anvil::chunks::sections::{BlockState, SectionBlocks};
use rusty_anvil::RegionFileReader;

fn palette_entry(name: &str) -> NbtTag {
    let mut c = NbtCompound::new();
    c.put("Name".to_string(), name.to_string());
    NbtTag::Compound(c)
}

/// A section whose 4096 positions cycle through a 16-entry palette:
/// position i stores palette index i % 16 (one nibble per value).
fn cycling_section(y: i8) -> NbtTag {
    let mut block_states = NbtCompound::new();
    let palette: Vec<NbtTag> = (0..16)
        .map(|i| palette_entry(&format!("minecraft:wool_{i}")))
        .collect();
    block_states.put("palette".to_string(), NbtTag::List(palette));
    let data: Vec<i64> = vec![0xFEDC_BA98_7654_3210u64 as i64; 256];
    block_states.put("data".to_string(), data);
    let mut section = NbtCompound::new();
    section.put("Y".to_string(), y);
    section.put("block_states".to_string(), block_states);
    NbtTag::Compound(section)
}

fn constant_section(y: i8, names: &[&str]) -> NbtTag {
    let mut block_states = NbtCompound::new();
    let palette: Vec<NbtTag> = names.iter().map(|n| palette_entry(n)).collect();
    block_states.put("palette".to_string(), NbtTag::List(palette));
    let mut section = NbtCompound::new();
    section.put("Y".to_string(), y);
    section.put("block_states".to_string(), block_states);
    NbtTag::Compound(section)
}

fn sections_chunk_image(sections: Vec<NbtTag>) -> Vec<u8> {
    let mut root = NbtCompound::new();
    root.put("Status".to_string(), "full".to_string());
    root.put("Heightmaps".to_string(), NbtCompound::new());
    root.put("sections".to_string(), NbtTag::List(sections));
    let nbt = Nbt::new(String::new(), root).write().to_vec();
    let n = (nbt.len() + 1) as u32;
    let mut image = vec![0u8; 8192];
    image[2] = 2;
    let mut frame = Vec::new();
    frame.extend_from_slice(&n.to_be_bytes());
    frame.push(3);
    frame.extend_from_slice(&nbt);
    while frame.len() % 4096 != 0 {
        frame.push(0);
    }
    image[3] = (frame.len() / 4096) as u8;
    image.extend_from_slice(&frame);
    image
}

#[test]
fn can_load() {
    let image = sections_chunk_image(vec![
        constant_section(-4, &["minecraft:bedrock"]),
        cycling_section(-3),
    ]);
    let reader = RegionFileReader::create(image).unwrap();
    let chunk = reader.get_chunk(0, 0).unwrap();

    let subchunk = chunk.get_subchunk(1).unwrap();
    for ([x, y, z], block) in BlockIter::new(&subchunk.blocks).with_coordinates() {
        let b2 = subchunk.blocks.get_block(x, y, z);
        assert_eq!(
            block, b2,
            "{x},{y},{z} failed to match with iterator. {block:?}!={b2:?}"
        );
    }
}

#[test]
fn block_values_follow_packing() {
    let image = sections_chunk_image(vec![cycling_section(0)]);
    let reader = RegionFileReader::create(image).unwrap();
    let chunk = reader.get_chunk(0, 0).unwrap();
    let subchunk = chunk.get_subchunk(0).unwrap();
    assert_eq!(subchunk.y, 0);
    assert_eq!(subchunk.blocks.get_palette().len(), 16);
    // position i holds palette index i % 16, so x decides the block
    for x in 0..16u8 {
        for y in [0u8, 7, 15] {
            for z in [0u8, 3, 15] {
                let b = subchunk.blocks.get_block(x, y, z);
                assert_eq!(b.name, format!("minecraft:wool_{x}"));
            }
        }
    }
}

#[test]
fn empty_data_yields_first_palette_entry() {
    let image = sections_chunk_image(vec![constant_section(
        2,
        &["minecraft:air", "minecraft:stone"],
    )]);
    let reader = RegionFileReader::create(image).unwrap();
    let chunk = reader.get_chunk(0, 0).unwrap();
    let subchunk = chunk.get_subchunk(0).unwrap();
    let mut iter = BlockIter::new(&subchunk.blocks);
    let mut count = 0usize;
    while let Some(block) = iter.next() {
        assert_eq!(block.name, "minecraft:air");
        count += 1;
    }
    assert_eq!(count, 4096);
    assert_eq!(subchunk.blocks.get_block(9, 9, 9).name, "minecraft:air");
}

#[test]
fn block_iteration_yields_4096() {
    let image = sections_chunk_image(vec![cycling_section(1)]);
    let reader = RegionFileReader::create(image).unwrap();
    let chunk = reader.get_chunk(0, 0).unwrap();
    let subchunk = chunk.get_subchunk(0).unwrap();
    let mut iter = BlockIter::new(&subchunk.blocks);
    assert_eq!(iter.size_hint(), (4096, Some(4096)));
    let mut count = 0usize;
    while iter.next().is_some() {
        count += 1;
    }
    assert_eq!(count, 4096);
    assert_eq!(iter.size_hint(), (4096, Some(4096)));
}

#[test]
fn subchunk_index_out_of_range() {
    let image = sections_chunk_image(vec![cycling_section(0)]);
    let reader = RegionFileReader::create(image).unwrap();
    let chunk = reader.get_chunk(0, 0).unwrap();
    assert!(matches!(
        chunk.get_subchunk(1),
        Err(ChunkLoadError::MissingSection)
    ));
}

#[test]
fn section_without_block_states_is_empty_section() {
    let mut section = NbtCompound::new();
    section.put("Y".to_string(), 5i8);
    let image = sections_chunk_image(vec![NbtTag::Compound(section)]);
    let reader = RegionFileReader::create(image).unwrap();
    let chunk = reader.get_chunk(0, 0).unwrap();
    assert!(matches!(
        chunk.get_subchunk(0),
        Err(ChunkLoadError::EmptySection)
    ));
}

#[test]
fn section_without_y_is_malformed() {
    let mut block_states = NbtCompound::new();
    block_states.put(
        "palette".to_string(),
        NbtTag::List(vec![palette_entry("minecraft:stone")]),
    );
    let mut section = NbtCompound::new();
    section.put("block_states".to_string(), block_states);
    let image = sections_chunk_image(vec![NbtTag::Compound(section)]);
    let reader = RegionFileReader::create(image).unwrap();
    let chunk = reader.get_chunk(0, 0).unwrap();
    assert!(matches!(
        chunk.get_subchunk(0),
        Err(ChunkLoadError::MalformedChunk(_))
    ));
}

#[test]
fn section_iterator_walks_all_sections() {
    let image = sections_chunk_image(vec![
        constant_section(-4, &["minecraft:bedrock"]),
        cycling_section(-3),
        constant_section(-2, &["minecraft:air"]),
    ]);
    let reader = RegionFileReader::create(image).unwrap();
    let chunk = reader.get_chunk(0, 0).unwrap();
    let mut iter = chunk.get_subchunks().unwrap();
    let mut ys = Vec::new();
    while let Some(section) = iter.next() {
        ys.push(section.unwrap().y);
    }
    assert_eq!(ys, vec![-4, -3, -2]);
}

#[test]
fn out_of_palette_index_is_rejected() {
    let palette = vec![BlockState {
        name: "minecraft:stone".to_string(),
        properties: Vec::new(),
    }];
    // one palette entry means 4 bits per index; a stored 5 is out of range
    let mut data = vec![0i64; 256];
    data[17] = 0x50;
    assert!(matches!(
        SectionBlocks::from_parts(palette.clone(), data),
        Err(ChunkLoadError::MalformedChunk(_))
    ));
    // all-zero data of the right length is accepted
    let ok = SectionBlocks::from_parts(palette, vec![0i64; 256]).unwrap();
    assert_eq!(ok.bits_per_block, 4);
}

#[test]
fn short_data_array_is_rejected() {
    let palette = vec![BlockState {
        name: "minecraft:stone".to_string(),
        properties: Vec::new(),
    }];
    assert!(matches!(
        SectionBlocks::from_parts(palette, vec![0i64; 255]),
        Err(ChunkLoadError::MalformedChunk(_))
    ));
}

#[test]
fn empty_palette_with_data_is_rejected() {
    assert!(matches!(
        SectionBlocks::from_parts(Vec::new(), vec![0i64; 256]),
        Err(ChunkLoadError::MalformedChunk(_))
    ));
}

#[test]
fn block_state_properties_carry_over() {
    let mut props = NbtCompound::new();
    props.put("axis".to_string(), "y".to_string());
    let mut entry = NbtCompound::new();
    entry.put("Name".to_string(), "minecraft:oak_log".to_string());
    entry.put("Properties".to_string(), props);
    let mut block_states = NbtCompound::new();
    block_states.put("palette".to_string(), NbtTag::List(vec![NbtTag::Compound(entry)]));
    let mut section = NbtCompound::new();
    section.put("Y".to_string(), 0i8);
    section.put("block_states".to_string(), block_states);
    let image = sections_chunk_image(vec![NbtTag::Compound(section)]);
    let reader = RegionFileReader::create(image).unwrap();
    let chunk = reader.get_chunk(0, 0).unwrap();
    let subchunk = chunk.get_subchunk(0).unwrap();
    let palette = subchunk.blocks.get_palette();
    assert_eq!(palette.len(), 1);
    assert_eq!(palette[0].name, "minecraft:oak_log");
    assert_eq!(palette[0].properties.len(), 1);
    assert_eq!(palette[0].properties[0].0, "axis");
    assert_eq!(
        palette[0].properties[0].1,
        rusty_anvil::chunks::sections::PropValue::Text("y".to_string())
    );
}
