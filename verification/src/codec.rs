//! The chunk record: the schema of a stored chunk and the conversion
//! between it and a chunk in memory.
//!
//! A record names its data version and holds the chunk's level: the
//! position, the populated sections, the biomes, the entities and the
//! heightmaps. A section of a record holds its height `Y`, its palette as
//! block names with properties, the palette index of each block packed
//! into 64-bit words, and two arrays of 2048 bytes with a light level in
//! each half byte.

use crate::chunk::{
    lemma_light_words, Chunk, ChunkSection, ColumnHeights, SectionContent, COLUMN_COUNT,
    LIGHT_BITS, LIGHT_WORDS, SECTION_COUNT, SECTION_VOLUME,
};
use crate::error::{Error, SchemaFault};
use crate::header::ChunkPosition;
use crate::heightmap::{column_heights, recalculate_heightmap};
use crate::packed_array::{
    derived_width, packed_words, raw_geometry_ok, signed_from_words, signed_to_words, unpack_all,
    words_from_signed, words_needed, words_to_signed, PackedArray,
};
use crate::palette::{distinct, palette_bits, spells};
use crate::tables::{same_properties, BiomeTable, BlockStateTable, Property};
use vstd::prelude::*;

verus! {

/// The data version supported by this code, currently corresponding
/// to 1.13.2.
pub const DATA_VERSION: i32 = 1631;

/// The number of bytes that hold the light levels of a section.
pub const LIGHT_BYTES: usize = 2048;

/// Represents the proprties for a palette entry.
#[derive(Debug)]
pub struct LevelProperties {
    /// The property names and values, in the order of the names.
    pub props: Vec<Property>,
}

/// Represents a palette entry in a region file.
#[derive(Debug)]
pub struct LevelPaletteEntry {
    /// The identifier of the type of this block
    pub name: String,
    /// Optional properties for this block
    pub props: Option<LevelProperties>,
}

/// Represents a chunk section in a region file.
#[derive(Debug)]
pub struct LevelSection {
    pub y: i8,
    pub states: Vec<i64>,
    pub palette: Vec<LevelPaletteEntry>,
    pub block_light: Vec<i8>,
    pub sky_light: Vec<i8>,
}

/// Represents the level data for a chunk. The entity records are carried
/// as they are.
pub struct ChunkLevel<E> {
    pub x_pos: i32,
    pub z_pos: i32,
    pub sections: Vec<LevelSection>,
    pub biomes: Vec<i32>,
    pub entities: Vec<E>,
    pub heightmaps: Vec<i64>,
}

/// Represents the data for a chunk after the "Chunk [x, y]" tag.
pub struct ChunkRoot<E> {
    pub level: ChunkLevel<E>,
    pub data_version: i32,
}

/// The word that the eight bytes at `at` spell, the lowest byte first.
pub open spec fn le_word(bytes: Seq<i8>, at: int) -> u64 {
    (bytes[at] as u8 as u64) | ((bytes[at + 1] as u8 as u64) << 8) | ((bytes[at + 2] as u8 as u64)
        << 16) | ((bytes[at + 3] as u8 as u64) << 24) | ((bytes[at + 4] as u8 as u64) << 32) | ((
    bytes[at + 5] as u8 as u64) << 40) | ((bytes[at + 6] as u8 as u64) << 48) | ((bytes[at
        + 7] as u8 as u64) << 56)
}

/// Byte `k` of `word`, counted from the lowest.
pub open spec fn le_byte(word: u64, k: int) -> i8 {
    (((word >> ((8 * k) as u64)) & 0xff) as u8) as i8
}

/// The words that a byte array spells, eight bytes to a word.
pub open spec fn le_words(bytes: Seq<i8>) -> Seq<u64> {
    Seq::new((bytes.len() / 8) as nat, |i: int| le_word(bytes, 8 * i))
}

/// The bytes that spell a list of words.
pub open spec fn le_bytes(words: Seq<u64>) -> Seq<i8> {
    Seq::new(8 * words.len(), |j: int| le_byte(words[j / 8], j % 8))
}

/// Converts raw lighting data into the words of a packed array: each group
/// of 8 stored bytes makes one word.
pub fn light_words(bytes: &Vec<i8>) -> (r: Vec<u64>)
    requires
        bytes@.len() % 8 == 0,
    ensures
        r@ == le_words(bytes@),
        r@.len() == bytes@.len() / 8,
{
    let len = bytes.len();
    let count = len / 8;
    let mut out: Vec<u64> = Vec::with_capacity(count);
    let mut i: usize = 0;
    while i < count
        invariant
            i <= count,
            len == bytes@.len(),
            8 * count == len,
            out@.len() == i,
            forall|j: int| 0 <= j < i ==> #[trigger] out@[j] == le_word(bytes@, 8 * j),
        decreases count - i,
    {
        let at = 8 * i;
        let word = (bytes[at] as u8 as u64) | ((bytes[at + 1] as u8 as u64) << 8) | ((bytes[at
            + 2] as u8 as u64) << 16) | ((bytes[at + 3] as u8 as u64) << 24) | ((bytes[at
            + 4] as u8 as u64) << 32) | ((bytes[at + 5] as u8 as u64) << 40) | ((bytes[at
            + 6] as u8 as u64) << 48) | ((bytes[at + 7] as u8 as u64) << 56);
        out.push(word);
        i = i + 1;
    }
    proof {
        assert(out@ =~= le_words(bytes@));
    }
    out
}

/// Converts the words of a packed array of light levels into raw lighting
/// data: each word makes 8 bytes.
pub fn light_bytes(words: &[u64]) -> (r: Vec<i8>)
    requires
        words@.len() <= usize::MAX / 8,
    ensures
        r@ == le_bytes(words@),
        r@.len() == 8 * words@.len(),
{
    let mut out: Vec<i8> = Vec::with_capacity(8 * words.len());
    let mut i: usize = 0;
    while i < words.len()
        invariant
            i <= words@.len(),
            out@.len() == 8 * i,
            forall|j: int| 0 <= j < 8 * i ==> #[trigger] out@[j] == le_byte(words@[j / 8], j % 8),
        decreases words@.len() - i,
    {
        let word = words[i];
        let ghost before = out@;
        out.push(((word & 0xff) as u8) as i8);
        out.push((((word >> 8) & 0xff) as u8) as i8);
        out.push((((word >> 16) & 0xff) as u8) as i8);
        out.push((((word >> 24) & 0xff) as u8) as i8);
        out.push((((word >> 32) & 0xff) as u8) as i8);
        out.push((((word >> 40) & 0xff) as u8) as i8);
        out.push((((word >> 48) & 0xff) as u8) as i8);
        out.push((((word >> 56) & 0xff) as u8) as i8);
        proof {
            assert(word >> 0 == word) by (bit_vector);
            assert forall|j: int| 0 <= j < 8 * (i + 1) implies #[trigger] out@[j] == le_byte(
                words@[j / 8],
                j % 8,
            ) by {
                if j < 8 * i {
                    assert(out@[j] == before[j]);
                }
            }
        }
        i = i + 1;
    }
    proof {
        assert(out@ =~= le_bytes(words@));
    }
    out
}

/// The bytes of a word spell the word again.
pub proof fn lemma_le_round_trip(word: u64)
    ensures
        (le_byte(word, 0) as u8 as u64) | ((le_byte(word, 1) as u8 as u64) << 8) | ((le_byte(
            word,
            2,
        ) as u8 as u64) << 16) | ((le_byte(word, 3) as u8 as u64) << 24) | ((le_byte(
            word,
            4,
        ) as u8 as u64) << 32) | ((le_byte(word, 5) as u8 as u64) << 40) | ((le_byte(
            word,
            6,
        ) as u8 as u64) << 48) | ((le_byte(word, 7) as u8 as u64) << 56) == word,
{
    let b0 = (((word >> 0) & 0xff) as u8) as i8;
    let b1 = (((word >> 8) & 0xff) as u8) as i8;
    let b2 = (((word >> 16) & 0xff) as u8) as i8;
    let b3 = (((word >> 24) & 0xff) as u8) as i8;
    let b4 = (((word >> 32) & 0xff) as u8) as i8;
    let b5 = (((word >> 40) & 0xff) as u8) as i8;
    let b6 = (((word >> 48) & 0xff) as u8) as i8;
    let b7 = (((word >> 56) & 0xff) as u8) as i8;
    assert((b0 as u8 as u64) | ((b1 as u8 as u64) << 8) | ((b2 as u8 as u64) << 16) | ((b3 as u8 as u64)
        << 24) | ((b4 as u8 as u64) << 32) | ((b5 as u8 as u64) << 40) | ((b6 as u8 as u64) << 48) | ((
    b7 as u8 as u64) << 56) == word) by (bit_vector)
        requires
            b0 == (((word >> 0) & 0xff) as u8) as i8,
            b1 == (((word >> 8) & 0xff) as u8) as i8,
            b2 == (((word >> 16) & 0xff) as u8) as i8,
            b3 == (((word >> 24) & 0xff) as u8) as i8,
            b4 == (((word >> 32) & 0xff) as u8) as i8,
            b5 == (((word >> 40) & 0xff) as u8) as i8,
            b6 == (((word >> 48) & 0xff) as u8) as i8,
            b7 == (((word >> 56) & 0xff) as u8) as i8,
    ;
}

/// Light round trip: the words read from the bytes written for a list of
/// words are the words.
pub proof fn lemma_light_round_trip(words: Seq<u64>)
    ensures
        le_words(le_bytes(words)) == words,
{
    let bytes = le_bytes(words);
    assert forall|i: int| 0 <= i < words.len() implies #[trigger] le_words(bytes)[i] == words[i] by {
        lemma_le_round_trip(words[i]);
        assert(bytes[8 * i] == le_byte(words[i], 0));
        assert(bytes[8 * i + 1] == le_byte(words[i], 1));
        assert(bytes[8 * i + 2] == le_byte(words[i], 2));
        assert(bytes[8 * i + 3] == le_byte(words[i], 3));
        assert(bytes[8 * i + 4] == le_byte(words[i], 4));
        assert(bytes[8 * i + 5] == le_byte(words[i], 5));
        assert(bytes[8 * i + 6] == le_byte(words[i], 6));
        assert(bytes[8 * i + 7] == le_byte(words[i], 7));
    }
    assert(le_words(bytes) =~= words);
}

/// The six heights of a column in one word, each in a field of 9 bits: the
/// sum of `height_i << (9 * i)`.
pub open spec fn packed_heights(heights: ColumnHeights) -> i64 {
    (heights.motion_blocking + heights.motion_blocking_no_leaves * 0x200 + heights.ocean_floor
        * 0x4_0000 + heights.ocean_floor_wg * 0x800_0000 + heights.world_surface * 0x10_0000_0000
        + heights.world_surface_wg * 0x2000_0000_0000) as i64
}

/// Packs the six heights of a column into one word.
pub fn pack_heights(heights: &ColumnHeights) -> (r: i64)
    ensures
        r == packed_heights(*heights),
{
    let a = heights.motion_blocking as u64;
    let b = heights.motion_blocking_no_leaves as u64;
    let c = heights.ocean_floor as u64;
    let d = heights.ocean_floor_wg as u64;
    let e = heights.world_surface as u64;
    let f = heights.world_surface_wg as u64;
    assert(b << 9 == b * 0x200 && c << 18 == c * 0x4_0000 && d << 27 == d * 0x800_0000 && e << 36 == e
        * 0x10_0000_0000 && f << 45 == f * 0x2000_0000_0000) by (bit_vector)
        requires
            b <= 0xffff,
            c <= 0xffff,
            d <= 0xffff,
            e <= 0xffff,
            f <= 0xffff,
    ;
    (a + (b << 9) + (c << 18) + (d << 27) + (e << 36) + (f << 45)) as i64
}

/// The properties of a palette entry: none where the entry names none.
pub open spec fn entry_properties(entry: LevelPaletteEntry) -> Seq<Property> {
    match entry.props {
        Some(properties) => properties.props@,
        None => Seq::empty(),
    }
}

/// The id of the block state that a palette entry names.
pub open spec fn entry_id(table: BlockStateTable, entry: LevelPaletteEntry) -> Option<u16> {
    table.spec_resolve(entry.name@, entry_properties(entry))
}

/// Whether `ids` are the block states that `entries` name.
pub open spec fn resolves_to(table: BlockStateTable, entries: Seq<LevelPaletteEntry>, ids: Seq<u16>) -> bool {
    &&& ids.len() == entries.len()
    &&& forall|i: int| 0 <= i < entries.len() ==> entry_id(table, #[trigger] entries[i]) == Some(ids[i])
}

/// Whether every entry of a palette names a block state.
pub open spec fn palette_resolves(table: BlockStateTable, entries: Seq<LevelPaletteEntry>) -> bool {
    forall|i: int| 0 <= i < entries.len() ==> entry_id(table, #[trigger] entries[i]) is Some
}

/// Resolves each entry of a stored palette through the table of block
/// states. Fails with `InvalidBlock` where an entry names no block state.
pub fn resolve_palette(entries: &Vec<LevelPaletteEntry>, table: &BlockStateTable) -> (r: Result<
    Vec<u16>,
    Error,
>)
    ensures
        match r {
            Ok(ids) => resolves_to(*table, entries@, ids@),
            Err(e) => e == Error::InvalidBlock && !palette_resolves(*table, entries@),
        },
{
    let none: Vec<Property> = Vec::new();
    let mut palette: Vec<u16> = Vec::with_capacity(entries.len());
    let mut i: usize = 0;
    while i < entries.len()
        invariant
            i <= entries@.len(),
            none@.len() == 0,
            palette@.len() == i,
            forall|j: int| 0 <= j < i ==> entry_id(*table, #[trigger] entries@[j]) == Some(palette@[j]),
        decreases entries@.len() - i,
    {
        let entry = &entries[i];
        // Attempt to get block from the given values
        let resolved = match &entry.props {
            Some(properties) => table.resolve(entry.name.as_str(), &properties.props),
            None => {
                assert(none@ =~= Seq::<Property>::empty());
                table.resolve(entry.name.as_str(), &none)
            },
        };
        match resolved {
            Some(id) => {
                palette.push(id);
            },
            None => {
                assert(entry_id(*table, entries@[i as int]) is None);
                return Err(Error::InvalidBlock);
            },
        }
        i = i + 1;
    }
    Ok(palette)
}

/// The palette indices that the block state words of a section spell.
pub open spec fn decoded_indices(states: Seq<i64>) -> Seq<u64> {
    unpack_all(
        words_from_signed(states),
        SECTION_VOLUME as int,
        derived_width(states.len() as int, SECTION_VOLUME as int),
    )
}

/// The light levels that raw lighting data spells.
pub open spec fn decoded_light(bytes: Seq<i8>) -> Seq<u64> {
    unpack_all(le_words(bytes), SECTION_VOLUME as int, LIGHT_BITS as int)
}

/// Whether every palette index of `indices` lies within a palette of
/// `entries` entries.
pub open spec fn indices_within(indices: Seq<u64>, entries: int) -> bool {
    forall|i: int| 0 <= i < SECTION_VOLUME ==> (#[trigger] indices[i]) < entries
}

/// Why a stored section cannot be read, if it cannot: the first of these
/// that holds. An entry of the palette names no block state; the block
/// state words cannot hold 4096 values; a light array is not of 2048
/// bytes; a palette index lies outside the palette; the height is not one
/// of the 16 of a chunk.
pub open spec fn section_fault(section: LevelSection, table: BlockStateTable) -> Option<Error> {
    if !palette_resolves(table, section.palette@) {
        Some(Error::InvalidBlock)
    } else if !raw_geometry_ok(section.states@.len() as int, SECTION_VOLUME as int) {
        Some(Error::MalformedSchema(SchemaFault::BlockStates))
    } else if section.block_light@.len() != LIGHT_BYTES || section.sky_light@.len() != LIGHT_BYTES {
        Some(Error::IndexOutOfBounds)
    } else if !indices_within(decoded_indices(section.states@), section.palette@.len() as int) {
        Some(Error::IndexOutOfBounds)
    } else if section.y < 0 || section.y >= SECTION_COUNT {
        Some(Error::IndexOutOfBounds)
    } else {
        None
    }
}

/// Whether `content` is what a stored section holds: the block states
/// that its palette names, its block state words as they are, read at the
/// width that their number implies, and its light bytes joined to words.
pub open spec fn is_decoded(section: LevelSection, table: BlockStateTable, content: SectionContent) -> bool {
    &&& resolves_to(table, section.palette@, content.palette)
    &&& content.index_bits == derived_width(section.states@.len() as int, SECTION_VOLUME as int)
    &&& content.index_words == words_from_signed(section.states@)
    &&& content.indices == decoded_indices(section.states@)
    &&& content.block_light_words == le_words(section.block_light@)
    &&& content.block_light == decoded_light(section.block_light@)
    &&& content.sky_light_words == le_words(section.sky_light@)
    &&& content.sky_light == decoded_light(section.sky_light@)
}

/// Reads a stored section: resolves its palette, reconstructs the packed
/// arrays of its blocks and its light levels, and checks its height.
pub fn read_section(section: &LevelSection, table: &BlockStateTable) -> (r: Result<
    (usize, ChunkSection),
    Error,
>)
    ensures
        match section_fault(*section, *table) {
            Some(e) => r == Err::<(usize, ChunkSection), Error>(e),
            None => r matches Ok((y, read)) && y == section.y && read.wf() && is_decoded(
                *section,
                *table,
                read.content(),
            ),
        },
{
    // Create palette
    let palette = match resolve_palette(&section.palette, table) {
        Ok(palette) => palette,
        Err(e) => {
            return Err(e);
        },
    };
    // Create section
    let data = match PackedArray::checked_from_u64_vec(
        signed_to_words(&section.states),
        SECTION_VOLUME,
    ) {
        Some(data) => data,
        None => {
            return Err(Error::MalformedSchema(SchemaFault::BlockStates));
        },
    };
    // Light
    if section.block_light.len() != LIGHT_BYTES || section.sky_light.len() != LIGHT_BYTES {
        return Err(Error::IndexOutOfBounds);
    }
    proof {
        lemma_light_geometry();
    }
    // convert raw lighting data (4bits / block) into packed arrays
    let block_light = PackedArray::from_u64_vec(light_words(&section.block_light), SECTION_VOLUME);
    let sky_light = PackedArray::from_u64_vec(light_words(&section.sky_light), SECTION_VOLUME);
    let chunk_section = match ChunkSection::new(data, palette, block_light, sky_light) {
        Some(chunk_section) => chunk_section,
        None => {
            return Err(Error::IndexOutOfBounds);
        },
    };
    if section.y < 0 || section.y >= SECTION_COUNT as i8 {
        // Haha... nope.
        return Err(Error::IndexOutOfBounds);
    }
    Ok((section.y as usize, chunk_section))
}

/// Reads a stored section into the chunk, at the height that the section
/// names. Where the section cannot be read the chunk stays as it is.
pub fn read_section_into_chunk(section: &LevelSection, table: &BlockStateTable, chunk: &mut Chunk) -> (r:
    Result<(), Error>)
    requires
        old(chunk).wf(),
    ensures
        final(chunk).wf(),
        final(chunk).biomes() == old(chunk).biomes(),
        final(chunk).heightmaps() == old(chunk).heightmaps(),
        final(chunk).spec_position() == old(chunk).spec_position(),
        match section_fault(*section, *table) {
            Some(e) => r == Err::<(), Error>(e) && final(chunk).sections() == old(chunk).sections(),
            None => {
                &&& r is Ok
                &&& final(chunk).sections().len() == old(chunk).sections().len()
                &&& forall|y: int|
                    0 <= y < SECTION_COUNT && y != section.y ==> #[trigger] final(chunk).sections()[y]
                        == old(chunk).sections()[y]
                &&& final(chunk).content_at(section.y as int) matches Some(content) && is_decoded(
                    *section,
                    *table,
                    content,
                )
            },
        },
{
    match read_section(section, table) {
        Ok((y, chunk_section)) => {
            chunk.set_section_at(y, Some(chunk_section));
            Ok(())
        },
        Err(e) => Err(e),
    }
}

fn clone_properties(properties: &Vec<Property>) -> (r: Vec<Property>)
    ensures
        r@ == properties@,
{
    let mut out: Vec<Property> = Vec::with_capacity(properties.len());
    let mut i: usize = 0;
    while i < properties.len()
        invariant
            i <= properties@.len(),
            out@.len() == i,
            forall|j: int| 0 <= j < i ==> #[trigger] out@[j] == properties@[j],
        decreases properties@.len() - i,
    {
        out.push(properties[i].clone());
        i = i + 1;
    }
    proof {
        assert(out@ =~= properties@);
    }
    out
}

/// Whether the table describes every block state of `ids`.
pub open spec fn palette_described(table: BlockStateTable, ids: Seq<u16>) -> bool {
    forall|i: int| 0 <= i < ids.len() ==> table.spec_describe(#[trigger] ids[i]) is Some
}

/// Whether `entry` is the description of the block state `id`: its name
/// and its properties.
pub open spec fn entry_describes(table: BlockStateTable, id: u16, entry: LevelPaletteEntry) -> bool {
    &&& table.spec_describe(id) matches Some(k)
    &&& entry.name@ == table.states@[k].name@
    &&& entry.props matches Some(properties)
    &&& same_properties(properties.props@, table.states@[k].properties@)
}

/// Whether `entries` are the descriptions of the block states `ids`.
pub open spec fn describes(table: BlockStateTable, ids: Seq<u16>, entries: Seq<LevelPaletteEntry>) -> bool {
    &&& entries.len() == ids.len()
    &&& forall|i: int| 0 <= i < ids.len() ==> entry_describes(table, ids[i], #[trigger] entries[i])
}

/// Describes each block state of a palette by its name and properties.
/// Fails with `InvalidBlock` where the table does not hold a state.
pub fn raw_palette_to_palette_entries(palette: &Vec<u16>, table: &BlockStateTable) -> (r: Result<
    Vec<LevelPaletteEntry>,
    Error,
>)
    ensures
        match r {
            Ok(entries) => describes(*table, palette@, entries@),
            Err(e) => e == Error::InvalidBlock && !palette_described(*table, palette@),
        },
{
    let mut entries: Vec<LevelPaletteEntry> = Vec::with_capacity(palette.len());
    let mut i: usize = 0;
    while i < palette.len()
        invariant
            i <= palette@.len(),
            entries@.len() == i,
            forall|j: int| 0 <= j < i ==> entry_describes(*table, palette@[j], #[trigger] entries@[j]),
        decreases palette@.len() - i,
    {
        match table.describe(palette[i]) {
            Some(state) => {
                let entry = LevelPaletteEntry {
                    name: state.name.clone(),
                    props: Some(LevelProperties { props: clone_properties(&state.properties) }),
                };
                entries.push(entry);
            },
            None => {
                assert(table.spec_describe(palette@[i as int]) is None);
                return Err(Error::InvalidBlock);
            },
        }
        i = i + 1;
    }
    Ok(entries)
}

/// Compacts the palette of a section and describes its block states: the
/// stored palette and the palette indices at the smallest width that fits
/// it.
pub fn convert_palette(section: &ChunkSection, table: &BlockStateTable) -> (r: Result<
    (Vec<LevelPaletteEntry>, PackedArray),
    Error,
>)
    requires
        section.wf(),
    ensures
        match r {
            Ok((entries, data)) => {
                let ids = distinct(section.blocks(), SECTION_VOLUME as int);
                &&& describes(*table, ids, entries@)
                &&& data.wf()
                &&& data.spec_len() == SECTION_VOLUME
                &&& data.spec_bits_per_value() == palette_bits(ids.len() as int)
                &&& data.raw().len() == words_needed(
                    SECTION_VOLUME as int,
                    palette_bits(ids.len() as int),
                )
                &&& data.raw() == packed_words(data@, palette_bits(ids.len() as int))
                &&& spells(ids, data@, section.blocks())
            },
            Err(e) => e == Error::InvalidBlock && !palette_described(
                *table,
                distinct(section.blocks(), SECTION_VOLUME as int),
            ),
        },
{
    let (palette, data) = section.compacted();
    match raw_palette_to_palette_entries(&palette, table) {
        Ok(entries) => Ok((entries, data)),
        Err(e) => Err(e),
    }
}

/// Whether `stored` is the stored form of `section` at height `y`: the
/// distinct block states described in the order of their first
/// occurrence, the palette indices packed at the smallest width that fits
/// them with every unused bit 0, and the light levels byte by byte.
pub open spec fn is_encoded(stored: LevelSection, y: int, section: ChunkSection, table: BlockStateTable) -> bool {
    let ids = distinct(section.blocks(), SECTION_VOLUME as int);
    let bits = palette_bits(ids.len() as int);
    let indices = unpack_all(words_from_signed(stored.states@), SECTION_VOLUME as int, bits);
    &&& stored.y == y
    &&& describes(table, ids, stored.palette@)
    &&& stored.states@.len() == words_needed(SECTION_VOLUME as int, bits)
    &&& words_from_signed(stored.states@) == packed_words(indices, bits)
    &&& spells(ids, indices, section.blocks())
    &&& stored.block_light@ == le_bytes(section.block_light_words())
    &&& stored.sky_light@ == le_bytes(section.sky_light_words())
}

/// A word comes back from its signed form.
pub proof fn lemma_signed_round_trip(words: Seq<u64>)
    ensures
        words_from_signed(signed_from_words(words)) == words,
{
    assert forall|i: int| 0 <= i < words.len() implies #[trigger] words_from_signed(
        signed_from_words(words),
    )[i] == words[i] by {
        let w = words[i];
        assert((w as i64) as u64 == w) by (bit_vector);
    }
    assert(words_from_signed(signed_from_words(words)) =~= words);
}

/// Writes a section for storage at height `y`.
pub fn write_section(y: usize, section: &ChunkSection, table: &BlockStateTable) -> (r: Result<
    LevelSection,
    Error,
>)
    requires
        section.wf(),
        y < SECTION_COUNT,
    ensures
        match r {
            Ok(stored) => is_encoded(stored, y as int, *section, *table),
            Err(e) => e == Error::InvalidBlock && !palette_described(
                *table,
                distinct(section.blocks(), SECTION_VOLUME as int),
            ),
        },
{
    let (palette, data) = match convert_palette(section, table) {
        Ok(converted) => converted,
        Err(e) => {
            return Err(e);
        },
    };
    proof {
        section.lemma_wf();
        data.lemma_view();
        lemma_signed_round_trip(data.raw());
    }
    Ok(
        LevelSection {
            y: y as i8,
            states: words_to_signed(data.as_u64_slice()),
            palette,
            block_light: light_bytes(section.block_light_raw()),
            sky_light: light_bytes(section.sky_light_raw()),
        },
    )
}

/// The heights below `upto` at which `sections` is populated, in
/// ascending order.
pub open spec fn populated(sections: Seq<Option<ChunkSection>>, upto: int) -> Seq<int>
    decreases upto,
{
    if upto <= 0 {
        Seq::empty()
    } else if sections[upto - 1] is Some {
        populated(sections, upto - 1).push(upto - 1)
    } else {
        populated(sections, upto - 1)
    }
}

/// Whether the table describes every block state of every populated
/// section below `upto`.
pub open spec fn sections_described(
    sections: Seq<Option<ChunkSection>>,
    table: BlockStateTable,
    upto: int,
) -> bool {
    forall|y: int|
        0 <= y < upto ==> ((#[trigger] sections[y]) matches Some(section) ==> palette_described(
            table,
            distinct(section.blocks(), SECTION_VOLUME as int),
        ))
}

/// Whether `stored` are the stored forms of the populated sections below
/// `upto`, in ascending order of their heights.
pub open spec fn sections_encoded(
    stored: Seq<LevelSection>,
    sections: Seq<Option<ChunkSection>>,
    table: BlockStateTable,
    upto: int,
) -> bool {
    let heights = populated(sections, upto);
    &&& stored.len() == heights.len()
    &&& forall|k: int|
        0 <= k < heights.len() ==> is_encoded(
            #[trigger] stored[k],
            heights[k],
            sections[heights[k]]->Some_0,
            table,
        )
}

/// Whether `root` is the record of `chunk` with `entities`.
pub open spec fn is_record<E>(
    root: ChunkRoot<E>,
    chunk: Chunk,
    entities: Seq<E>,
    table: BlockStateTable,
) -> bool {
    &&& root.data_version == DATA_VERSION
    &&& root.level.x_pos == chunk.spec_position().x
    &&& root.level.z_pos == chunk.spec_position().z
    &&& sections_encoded(root.level.sections@, chunk.sections(), table, SECTION_COUNT as int)
    &&& root.level.biomes@ == chunk.biomes()
    &&& root.level.entities@ == entities
    &&& root.level.heightmaps@.len() == COLUMN_COUNT
    &&& forall|i: int|
        0 <= i < COLUMN_COUNT ==> #[trigger] root.level.heightmaps@[i] == packed_heights(
            chunk.heightmaps()[i],
        )
}

/// Builds the record of a chunk: its populated sections in their stored
/// form, its biomes, its packed heightmaps and the entities given.
pub fn chunk_to_chunk_root<E>(chunk: &Chunk, entities: Vec<E>, table: &BlockStateTable) -> (r: Result<
    ChunkRoot<E>,
    Error,
>)
    requires
        chunk.wf(),
    ensures
        match r {
            Ok(root) => is_record(root, *chunk, entities@, *table),
            Err(e) => e == Error::InvalidBlock && !sections_described(
                chunk.sections(),
                *table,
                SECTION_COUNT as int,
            ),
        },
{
    let mut heightmaps: Vec<i64> = Vec::with_capacity(COLUMN_COUNT);
    let mut biomes: Vec<i32> = Vec::with_capacity(COLUMN_COUNT);
    let mut column: usize = 0;
    while column < COLUMN_COUNT
        invariant
            chunk.wf(),
            column <= COLUMN_COUNT,
            heightmaps@.len() == column,
            biomes@.len() == column,
            forall|i: int|
                0 <= i < column ==> #[trigger] heightmaps@[i] == packed_heights(chunk.heightmaps()[i]),
            forall|i: int| 0 <= i < column ==> #[trigger] biomes@[i] == chunk.biomes()[i],
        decreases COLUMN_COUNT - column,
    {
        let heights = chunk.heights_at(column);
        heightmaps.push(pack_heights(&heights));
        biomes.push(chunk.biome_at(column));
        column = column + 1;
    }
    let mut sections: Vec<LevelSection> = Vec::new();
    let mut y: usize = 0;
    while y < SECTION_COUNT
        invariant
            chunk.wf(),
            y <= SECTION_COUNT,
            sections_encoded(sections@, chunk.sections(), *table, y as int),
        decreases SECTION_COUNT - y,
    {
        let ghost before = sections@;
        match chunk.section(y) {
            Some(section) => {
                match write_section(y, section, table) {
                    Ok(stored) => {
                        sections.push(stored);
                    },
                    Err(e) => {
                        return Err(e);
                    },
                }
            },
            None => {},
        }
        proof {
            let heights = populated(chunk.sections(), y + 1);
            assert forall|k: int| 0 <= k < heights.len() implies is_encoded(
                #[trigger] sections@[k],
                heights[k],
                chunk.sections()[heights[k]]->Some_0,
                *table,
            ) by {
                if k < before.len() {
                    assert(sections@[k] == before[k]);
                }
            }
        }
        y = y + 1;
    }
    proof {
        assert(biomes@ =~= chunk.biomes());
    }
    let position = chunk.position();
    Ok(
        ChunkRoot {
            level: ChunkLevel {
                x_pos: position.x,
                z_pos: position.z,
                sections,
                biomes,
                entities,
                heightmaps,
            },
            data_version: DATA_VERSION,
        },
    )
}

/// The fault of the first stored section, at or after `from`, that cannot
/// be read.
pub open spec fn first_fault(sections: Seq<LevelSection>, table: BlockStateTable, from: int) -> Option<
    Error,
>
    decreases sections.len() - from,
{
    if from < 0 || from >= sections.len() {
        None
    } else if section_fault(sections[from], table) is Some {
        section_fault(sections[from], table)
    } else {
        first_fault(sections, table, from + 1)
    }
}

/// The first id, at or after `from`, that names no biome.
pub open spec fn first_invalid(biomes: Seq<i32>, valid: Seq<i32>, from: int) -> Option<i32>
    decreases biomes.len() - from,
{
    if from < 0 || from >= biomes.len() {
        None
    } else if !valid.contains(biomes[from]) {
        Some(biomes[from])
    } else {
        first_invalid(biomes, valid, from + 1)
    }
}

/// Why a record cannot be read, if it cannot: the first of these that
/// holds. Its data version is not the supported one; one of its sections
/// cannot be read; it does not hold 256 biomes; one of its biome ids names
/// no biome.
pub open spec fn record_fault<E>(root: ChunkRoot<E>, blocks: BlockStateTable, biomes: BiomeTable) -> Option<
    Error,
> {
    if root.data_version != DATA_VERSION {
        Some(Error::UnsupportedDataVersion(root.data_version))
    } else if first_fault(root.level.sections@, blocks, 0) is Some {
        first_fault(root.level.sections@, blocks, 0)
    } else if root.level.biomes@.len() != COLUMN_COUNT {
        Some(Error::IndexOutOfBounds)
    } else {
        match first_invalid(root.level.biomes@, biomes.ids@, 0) {
            Some(id) => Some(Error::InvalidBiomeId(id)),
            None => None,
        }
    }
}

/// The index of the last of the first `upto` stored sections that names
/// the height `y`.
pub open spec fn last_at_height(sections: Seq<LevelSection>, y: int, upto: int) -> Option<int>
    decreases upto,
{
    if upto <= 0 {
        None
    } else if sections[upto - 1].y == y {
        Some(upto - 1)
    } else {
        last_at_height(sections, y, upto - 1)
    }
}

/// Whether `chunk` holds what the first `upto` stored sections hold: at
/// each height the content of the last section that names it, and nothing
/// where none does.
pub open spec fn holds_sections(
    chunk: Chunk,
    sections: Seq<LevelSection>,
    table: BlockStateTable,
    upto: int,
) -> bool {
    forall|y: int|
        0 <= y < SECTION_COUNT ==> match last_at_height(sections, y, upto) {
            Some(k) => (#[trigger] chunk.content_at(y)) matches Some(content) && is_decoded(
                sections[k],
                table,
                content,
            ),
            None => chunk.content_at(y) is None,
        }
}

/// Whether `chunk` is the chunk at `position` that `root` records.
pub open spec fn is_loaded<E>(
    chunk: Chunk,
    position: ChunkPosition,
    root: ChunkRoot<E>,
    table: BlockStateTable,
) -> bool {
    &&& chunk.wf()
    &&& chunk.spec_position() == position
    &&& holds_sections(chunk, root.level.sections@, table, root.level.sections@.len() as int)
    &&& chunk.biomes() == root.level.biomes@
    &&& forall|column: int|
        0 <= column < COLUMN_COUNT ==> #[trigger] chunk.heightmaps()[column] == column_heights(
            chunk.sections(),
            table,
            column,
        )
}

/// Builds the chunk at `position` from its record and hands the entity
/// records on as they are. The data version is checked, each section is
/// read, and each of the 256 biome ids must name a biome. The heightmaps
/// are computed from the blocks that were read: the stored ones are not
/// used.
#[verifier::loop_isolation(false)]
pub fn chunk_from_root<E>(
    root: ChunkRoot<E>,
    position: ChunkPosition,
    blocks: &BlockStateTable,
    biomes: &BiomeTable,
) -> (r: Result<(Chunk, Vec<E>), Error>)
    ensures
        match record_fault(root, *blocks, *biomes) {
            Some(e) => r is Err && r->Err_0 == e,
            None => r matches Ok((chunk, entities)) && is_loaded(chunk, position, root, *blocks)
                && entities == root.level.entities,
        },
{
    // Check data version
    if root.data_version != DATA_VERSION {
        return Err(Error::UnsupportedDataVersion(root.data_version));
    }
    let level = root.level;
    let mut chunk = Chunk::new(position);
    // Read sections
    let mut i: usize = 0;
    while i < level.sections.len()
        invariant
            i <= level.sections@.len(),
            chunk.wf(),
            chunk.spec_position() == position,
            first_fault(level.sections@, *blocks, 0) == first_fault(level.sections@, *blocks, i as int),
            holds_sections(chunk, level.sections@, *blocks, i as int),
            forall|c: int| 0 <= c < COLUMN_COUNT ==> #[trigger] chunk.biomes()[c] == 0,
        decreases level.sections@.len() - i,
    {
        let ghost before = chunk;
        match read_section_into_chunk(&level.sections[i], blocks, &mut chunk) {
            Ok(()) => {},
            Err(e) => {
                assert(first_fault(level.sections@, *blocks, i as int) == Some(e));
                return Err(e);
            },
        }
        assert(first_fault(level.sections@, *blocks, i as int) == first_fault(
            level.sections@,
            *blocks,
            i + 1,
        ));
        proof {
            let stored = level.sections@[i as int];
            assert forall|y: int| 0 <= y < SECTION_COUNT implies match last_at_height(
                level.sections@,
                y,
                i + 1,
            ) {
                Some(k) => (#[trigger] chunk.content_at(y)) matches Some(content) && is_decoded(
                    level.sections@[k],
                    *blocks,
                    content,
                ),
                None => chunk.content_at(y) is None,
            } by {
                if y != stored.y {
                    assert(chunk.sections()[y] == before.sections()[y]);
                    assert(chunk.content_at(y) == before.content_at(y));
                }
            }
        }
        i = i + 1;
    }
    assert(first_fault(level.sections@, *blocks, 0) is None);
    // Read biomes
    if level.biomes.len() != COLUMN_COUNT {
        return Err(Error::IndexOutOfBounds);
    }
    let mut index: usize = 0;
    while index < COLUMN_COUNT
        invariant
            index <= COLUMN_COUNT,
            level.biomes@.len() == COLUMN_COUNT,
            first_fault(level.sections@, *blocks, 0) is None,
            chunk.wf(),
            chunk.spec_position() == position,
            holds_sections(chunk, level.sections@, *blocks, level.sections@.len() as int),
            first_invalid(level.biomes@, biomes.ids@, 0) == first_invalid(
                level.biomes@,
                biomes.ids@,
                index as int,
            ),
            forall|c: int| 0 <= c < index ==> #[trigger] chunk.biomes()[c] == level.biomes@[c],
        decreases COLUMN_COUNT - index,
    {
        let id = level.biomes[index];
        if !biomes.contains(id) {
            assert(first_invalid(level.biomes@, biomes.ids@, index as int) == Some(id));
            return Err(Error::InvalidBiomeId(id));
        }
        assert(first_invalid(level.biomes@, biomes.ids@, index as int) == first_invalid(
            level.biomes@,
            biomes.ids@,
            index + 1,
        ));
        let ghost before = chunk;
        chunk.set_biome_at(index, id);
        proof {
            assert forall|y: int| 0 <= y < SECTION_COUNT implies #[trigger] chunk.content_at(y)
                == before.content_at(y) by {}
        }
        index = index + 1;
    }
    proof {
        assert(chunk.biomes() =~= level.biomes@);
    }
    let ghost read = chunk;
    recalculate_heightmap(&mut chunk, blocks);
    proof {
        assert forall|y: int| 0 <= y < SECTION_COUNT implies #[trigger] chunk.content_at(y)
            == read.content_at(y) by {}
    }
    Ok((chunk, level.entities))
}

/// 2048 bytes of raw lighting data make the 256 words of 4096 light levels
/// of 4 bits.
pub proof fn lemma_light_geometry()
    ensures
        raw_geometry_ok(LIGHT_WORDS as int, SECTION_VOLUME as int),
        derived_width(LIGHT_WORDS as int, SECTION_VOLUME as int) == LIGHT_BITS,
        LIGHT_BYTES as int / 8 == LIGHT_WORDS,
        LIGHT_BYTES as int % 8 == 0,
{
    lemma_light_words();
    assert(256 * 64 / 4096 == 4int) by (nonlinear_arith);
}

} // verus!
