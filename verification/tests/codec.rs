use feather::chunk::{Chunk, ChunkSection, ColumnHeights};
use feather::codec::{
    chunk_from_root, chunk_to_chunk_root, light_bytes, light_words, pack_heights, read_section,
    resolve_palette, write_section, ChunkLevel, ChunkRoot, LevelPaletteEntry, LevelProperties,
    LevelSection, DATA_VERSION,
};
use feather::error::{Error, SchemaFault};
use feather::header::ChunkPosition;
use feather::heightmap::recalculate_heightmap;
use feather::packed_array::PackedArray;
use feather::palette::{bits_for_palette, compact_palette};
use feather::tables::{BiomeTable, BlockState, BlockStateTable, Property};

fn property(key: &str, value: &str) -> Property {
    Property { key: key.to_owned(), value: value.to_owned() }
}

fn state(id: u16, name: &str, properties: Vec<Property>, heightmaps: u8) -> BlockState {
    BlockState { id, name: name.to_owned(), properties, heightmaps }
}

fn blocks() -> BlockStateTable {
    BlockStateTable::new(vec![
        state(0, "minecraft:air", vec![], 0),
        state(1, "minecraft:stone", vec![], 0b111111),
        state(9, "minecraft:grass_block", vec![property("snowy", "false")], 0b111111),
        state(8, "minecraft:grass_block", vec![property("snowy", "true")], 0b111111),
        state(34, "minecraft:water", vec![property("level", "0")], 0b110001),
        state(144, "minecraft:oak_leaves", vec![property("distance", "1"), property("persistent", "false")], 0b110001),
    ])
}

fn biomes() -> BiomeTable {
    BiomeTable::new(vec![0, 1, 2, 127])
}

fn sample_chunk() -> Chunk {
    let mut chunk = Chunk::new(ChunkPosition::new(-3, 40));
    let mut ground = ChunkSection::filled(1);
    for x in 0..16 {
        for z in 0..16 {
            ground.set_block_at((15 << 8) | (z << 4) | x, 9);
        }
    }
    ground.set_block_at(0, 34);
    ground.set_block_light_at(5, 15);
    ground.set_sky_light_at(4095, 7);
    chunk.set_section_at(0, Some(ground));
    let mut sky = ChunkSection::filled(0);
    sky.set_block_at((3 << 8) | (2 << 4) | 1, 144);
    chunk.set_section_at(5, Some(sky));
    for column in 0..256 {
        chunk.set_biome_at(column, if column % 2 == 0 { 1 } else { 127 });
    }
    chunk
}

#[test]
fn record_round_trip() {
    let table = blocks();
    let chunk = sample_chunk();
    let root = chunk_to_chunk_root(&chunk, vec!["pig", "cow"], &table).unwrap();
    assert_eq!(root.data_version, 1631);
    assert_eq!(root.level.x_pos, -3);
    assert_eq!(root.level.z_pos, 40);
    assert_eq!(root.level.sections.len(), 2);
    assert_eq!(root.level.sections[0].y, 0);
    assert_eq!(root.level.sections[1].y, 5);
    assert_eq!(root.level.biomes.len(), 256);
    assert_eq!(root.level.heightmaps.len(), 256);

    let (loaded, entities) =
        chunk_from_root(root, ChunkPosition::new(-3, 40), &table, &biomes()).unwrap();
    assert_eq!(entities, vec!["pig", "cow"]);
    assert_eq!(loaded.position(), ChunkPosition::new(-3, 40));
    for y in 0..16 {
        match (chunk.section(y), loaded.section(y)) {
            (Some(held), Some(read)) => {
                assert_eq!(read.block_states(), held.block_states());
                for i in 0..4096 {
                    assert_eq!(read.block_light_at(i), held.block_light_at(i));
                    assert_eq!(read.sky_light_at(i), held.sky_light_at(i));
                }
            }
            (None, None) => {}
            _ => panic!("section {} is populated on one side only", y),
        }
    }
    for column in 0..256 {
        assert_eq!(loaded.biome_at(column), chunk.biome_at(column));
    }
    assert!(loaded.section(0).is_some());
    assert!(loaded.section(5).is_some());
    assert_eq!(loaded.section(0).unwrap().block_light_at(5), 15);
    assert_eq!(loaded.section(0).unwrap().sky_light_at(4095), 7);
}

#[test]
fn stored_section_has_a_compact_palette() {
    let table = blocks();
    let mut section = ChunkSection::filled(1);
    section.set_block_at(7, 9);
    section.set_block_at(7, 34);
    // The section's own palette still holds the state that was overwritten.
    assert_eq!(section.palette_ids(), &vec![1, 9, 34]);
    let stored = write_section(3, &section, &table).unwrap();
    assert_eq!(stored.y, 3);
    let names: Vec<&str> = stored.palette.iter().map(|entry| entry.name.as_str()).collect();
    assert_eq!(names, vec!["minecraft:stone", "minecraft:water"]);
    let props = stored.palette[1].props.as_ref().unwrap();
    assert_eq!(props.props.len(), 1);
    assert_eq!(props.props[0].key, "level");
    assert_eq!(props.props[0].value, "0");
    assert!(stored.palette[0].props.as_ref().unwrap().props.is_empty());
    // Two entries take one bit per block: 4096 bits are 64 words.
    assert_eq!(stored.states.len(), 64);
    assert_eq!(stored.states[0], 1 << 7);
    assert!(stored.states[1..].iter().all(|word| *word == 0));
    assert_eq!(stored.block_light.len(), 2048);
    assert_eq!(stored.sky_light.len(), 2048);
}

#[test]
fn palette_compaction() {
    let (palette, indices) = compact_palette(&vec![5, 5, 9, 5, 2, 9]);
    assert_eq!(palette, vec![5, 9, 2]);
    assert_eq!(indices.to_vec(), vec![0, 0, 1, 0, 2, 1]);
    assert_eq!(indices.bits_per_value(), 2);
    assert_eq!(indices.len(), 6);
    assert_eq!(indices.as_u64_slice(), &[0x610u64][..]);

    let (palette, indices) = compact_palette(&vec![7; 4096]);
    assert_eq!(palette, vec![7]);
    assert_eq!(indices.bits_per_value(), 1);
    assert_eq!(indices.as_u64_slice(), &vec![0u64; 64][..]);
}

#[test]
fn palette_widths() {
    assert_eq!(bits_for_palette(0), 1);
    assert_eq!(bits_for_palette(1), 1);
    assert_eq!(bits_for_palette(2), 1);
    assert_eq!(bits_for_palette(3), 2);
    assert_eq!(bits_for_palette(16), 4);
    assert_eq!(bits_for_palette(17), 5);
    assert_eq!(bits_for_palette(1024), 10);
    assert_eq!(bits_for_palette(1025), 11);
    assert_eq!(bits_for_palette(4096), 12);
}

#[test]
fn eleven_bits_are_read_as_twelve() {
    let values: Vec<u64> = (0..4096u64).map(|i| i % 1025).collect();
    let written = PackedArray::from_iter(values, 11);
    assert_eq!(written.as_u64_slice().len(), 820);
    let read = PackedArray::from_u64_vec(written.as_u64_slice().to_vec(), 4096);
    assert_eq!(read.bits_per_value(), 12);
    assert_ne!(read.get(1), written.get(1));
}

fn entry(name: &str, props: Option<Vec<Property>>) -> LevelPaletteEntry {
    LevelPaletteEntry {
        name: name.to_owned(),
        props: props.map(|props| LevelProperties { props }),
    }
}

fn stored_section() -> LevelSection {
    LevelSection {
        y: 2,
        states: vec![0; 256],
        palette: vec![entry("minecraft:stone", None)],
        block_light: vec![0; 2048],
        sky_light: vec![0; 2048],
    }
}

#[test]
fn section_is_read() {
    let table = blocks();
    let mut section = stored_section();
    section.palette.push(entry("minecraft:grass_block", Some(vec![property("snowy", "true")])));
    section.states[0] = 0x10;
    section.states[255] = 1 << 60;
    section.block_light[0] = 0x21;
    section.sky_light[2047] = -1;
    let (y, read) = read_section(&section, &table).unwrap();
    assert_eq!(y, 2);
    assert_eq!(read.palette_ids(), &vec![1, 8]);
    assert_eq!(read.block_at(0), 1);
    assert_eq!(read.block_at(1), 8);
    assert_eq!(read.block_at(4094), 1);
    // The highest four bits of the last word belong to the last block.
    assert_eq!(read.index_at(4095), 1);
    assert_eq!(read.block_at(4095), 8);
    assert_eq!(read.block_light_at(0), 1);
    assert_eq!(read.block_light_at(1), 2);
    assert_eq!(read.sky_light_at(4094), 15);
    assert_eq!(read.sky_light_at(4095), 15);
}

#[test]
fn section_faults() {
    let table = blocks();

    let mut section = stored_section();
    section.palette.push(entry("minecraft:bedrock", None));
    assert_eq!(read_section(&section, &table).err(), Some(Error::InvalidBlock));
    assert_eq!(resolve_palette(&section.palette, &table), Err(Error::InvalidBlock));

    let mut section = stored_section();
    section.palette[0] = entry("minecraft:grass_block", Some(vec![property("snowy", "maybe")]));
    assert_eq!(read_section(&section, &table).err(), Some(Error::InvalidBlock));

    let mut section = stored_section();
    section.states = vec![];
    assert_eq!(
        read_section(&section, &table).err(),
        Some(Error::MalformedSchema(SchemaFault::BlockStates))
    );
    section.states = vec![0; 63];
    assert_eq!(
        read_section(&section, &table).err(),
        Some(Error::MalformedSchema(SchemaFault::BlockStates))
    );

    let mut section = stored_section();
    section.block_light = vec![0; 2047];
    assert_eq!(read_section(&section, &table).err(), Some(Error::IndexOutOfBounds));
    let mut section = stored_section();
    section.sky_light = vec![0; 2049];
    assert_eq!(read_section(&section, &table).err(), Some(Error::IndexOutOfBounds));

    let mut section = stored_section();
    section.states[17] = 1;
    assert_eq!(read_section(&section, &table).err(), Some(Error::IndexOutOfBounds));

    let mut section = stored_section();
    section.y = 16;
    assert_eq!(read_section(&section, &table).err(), Some(Error::IndexOutOfBounds));
    section.y = -1;
    assert_eq!(read_section(&section, &table).err(), Some(Error::IndexOutOfBounds));
    section.y = 15;
    assert!(read_section(&section, &table).is_ok());

    // The first fault wins: an unknown block comes before a bad height.
    let mut section = stored_section();
    section.y = 99;
    section.palette[0] = entry("minecraft:nothing", None);
    assert_eq!(read_section(&section, &table).err(), Some(Error::InvalidBlock));
}

fn record(data_version: i32, sections: Vec<LevelSection>, biomes: Vec<i32>) -> ChunkRoot<u8> {
    ChunkRoot {
        level: ChunkLevel {
            x_pos: 0,
            z_pos: 0,
            sections,
            biomes,
            entities: vec![1, 2, 3],
            heightmaps: vec![],
        },
        data_version,
    }
}

#[test]
fn record_faults() {
    let table = blocks();
    let pos = ChunkPosition::new(0, 0);

    let root = record(1630, vec![], vec![0; 256]);
    assert_eq!(
        chunk_from_root(root, pos, &table, &biomes()).err(),
        Some(Error::UnsupportedDataVersion(1630))
    );

    let mut bad = stored_section();
    bad.y = 16;
    let root = record(DATA_VERSION, vec![stored_section(), bad], vec![0; 256]);
    assert_eq!(chunk_from_root(root, pos, &table, &biomes()).err(), Some(Error::IndexOutOfBounds));

    let root = record(DATA_VERSION, vec![], vec![0; 255]);
    assert_eq!(chunk_from_root(root, pos, &table, &biomes()).err(), Some(Error::IndexOutOfBounds));

    let mut ids = vec![0; 256];
    ids[200] = 3;
    ids[201] = 4;
    let root = record(DATA_VERSION, vec![], ids);
    assert_eq!(chunk_from_root(root, pos, &table, &biomes()).err(), Some(Error::InvalidBiomeId(3)));

    let root = record(DATA_VERSION, vec![stored_section()], vec![127; 256]);
    let (chunk, entities) = chunk_from_root(root, pos, &table, &biomes()).unwrap();
    assert_eq!(entities, vec![1, 2, 3]);
    assert!(chunk.section(2).is_some());
    assert!(chunk.section(1).is_none());
    assert_eq!(chunk.biome_at(255), 127);
}

#[test]
fn unknown_block_cannot_be_written() {
    let table = blocks();
    let mut chunk = Chunk::new(ChunkPosition::new(0, 0));
    chunk.set_section_at(1, Some(ChunkSection::filled(77)));
    assert_eq!(chunk_to_chunk_root(&chunk, Vec::<u8>::new(), &table).err(), Some(Error::InvalidBlock));
}

#[test]
fn heights_are_packed_in_fields_of_nine_bits() {
    let heights = ColumnHeights {
        motion_blocking: 1,
        motion_blocking_no_leaves: 2,
        ocean_floor: 3,
        ocean_floor_wg: 4,
        world_surface: 5,
        world_surface_wg: 6,
    };
    assert_eq!(
        pack_heights(&heights),
        1 + (2 << 9) + (3 << 18) + (4 << 27) + (5i64 << 36) + (6i64 << 45)
    );
    assert_eq!(pack_heights(&ColumnHeights::zero()), 0);
    let full = ColumnHeights {
        motion_blocking: 256,
        motion_blocking_no_leaves: 256,
        ocean_floor: 256,
        ocean_floor_wg: 256,
        world_surface: 256,
        world_surface_wg: 256,
    };
    assert_eq!(pack_heights(&full), 0x20_1008_0402_0100);
}

#[test]
fn light_bytes_are_little_endian() {
    assert_eq!(
        light_bytes(&[0x0807_0605_0403_0201, 0xff00_0000_0000_0080]),
        vec![1, 2, 3, 4, 5, 6, 7, 8, -128, 0, 0, 0, 0, 0, 0, -1]
    );
    assert_eq!(
        light_words(&vec![1, 2, 3, 4, 5, 6, 7, 8, -128, 0, 0, 0, 0, 0, 0, -1]),
        vec![0x0807_0605_0403_0201, 0xff00_0000_0000_0080]
    );
}

#[test]
fn heightmaps_are_computed_from_blocks() {
    let table = blocks();
    let mut chunk = sample_chunk();
    recalculate_heightmap(&mut chunk, &table);
    // Every column is grass up to height 16.
    let plain = chunk.heights_at(7 * 16 + 7);
    assert_eq!(plain.motion_blocking, 16);
    assert_eq!(plain.world_surface_wg, 16);
    // Leaves at x = 1, y = 83, z = 2 count for the heightmaps 0, 4 and 5.
    let tree = chunk.heights_at(2 * 16 + 1);
    assert_eq!(tree.motion_blocking, 84);
    assert_eq!(tree.motion_blocking_no_leaves, 16);
    assert_eq!(tree.ocean_floor, 16);
    assert_eq!(tree.ocean_floor_wg, 16);
    assert_eq!(tree.world_surface, 84);
    assert_eq!(tree.world_surface_wg, 84);

    let mut empty = Chunk::new(ChunkPosition::new(0, 0));
    empty.set_section_at(3, Some(ChunkSection::filled(0)));
    recalculate_heightmap(&mut empty, &table);
    assert_eq!(empty.heights_at(0), ColumnHeights::zero());
}

#[test]
fn loaded_heightmaps_do_not_trust_the_record() {
    let table = blocks();
    let chunk = sample_chunk();
    let mut root = chunk_to_chunk_root(&chunk, Vec::<u8>::new(), &table).unwrap();
    for word in root.level.heightmaps.iter_mut() {
        *word = 0x7fff_ffff;
    }
    let (loaded, _) = chunk_from_root(root, chunk.position(), &table, &biomes()).unwrap();
    assert_eq!(loaded.heights_at(0).motion_blocking, 16);
    assert_eq!(loaded.heights_at(2 * 16 + 1).world_surface, 84);
}

#[test]
fn table_lookups() {
    let table = blocks();
    assert_eq!(table.resolve("minecraft:stone", &vec![]), Some(1));
    assert_eq!(table.resolve("minecraft:grass_block", &vec![property("snowy", "true")]), Some(8));
    assert_eq!(table.resolve("minecraft:grass_block", &vec![]), None);
    assert_eq!(table.resolve("minecraft:dirt", &vec![]), None);
    assert_eq!(table.describe(34).map(|state| state.name.as_str()), Some("minecraft:water"));
    assert!(table.describe(2).is_none());
    assert!(biomes().contains(127));
    assert!(!biomes().contains(3));
}
