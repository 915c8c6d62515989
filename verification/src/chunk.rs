//! Chunks and their sections, as they are held in memory.
//!
//! A chunk is a column of the world, 16 blocks wide and long, cut into 16
//! sections of 16 blocks height. A section stores, for each of its 4096
//! blocks, an index into its palette of block states, and two light levels.
//! A block at `(x, y, z)` within a section has the index
//! `(y << 8) | (z << 4) | x`.

use crate::header::ChunkPosition;
use crate::packed_array::{
    fill_spec, mask_of, packed_words, values_per_word, with_slot, PackedArray,
};
use crate::palette::{
    bits_for_palette, compact_palette, distinct, find, is_first_index, palette_bits, spells,
};
use vstd::prelude::*;

verus! {

/// The number of blocks in a section.
pub const SECTION_VOLUME: usize = 4096;

/// The number of sections in a chunk.
pub const SECTION_COUNT: usize = 16;

/// The number of block columns in a chunk.
pub const COLUMN_COUNT: usize = 256;

/// The number of words that hold the light levels of a section.
pub const LIGHT_WORDS: usize = 256;

/// The width of a light level, in bits.
pub const LIGHT_BITS: usize = 4;

/// What a section holds: its palette, the palette index of each block and
/// the two light levels of each block, and the words in which the indices
/// and the light levels are stored.
pub struct SectionContent {
    pub palette: Seq<u16>,
    pub indices: Seq<u64>,
    pub index_bits: int,
    pub index_words: Seq<u64>,
    pub block_light: Seq<u64>,
    pub block_light_words: Seq<u64>,
    pub sky_light: Seq<u64>,
    pub sky_light_words: Seq<u64>,
}

impl SectionContent {
    /// The block state of each block.
    pub open spec fn blocks(self) -> Seq<u16> {
        Seq::new(SECTION_VOLUME as nat, |i: int| self.palette[self.indices[i] as int])
    }
}

/// One 16×16×16 block volume of a chunk.
#[derive(Debug)]
pub struct ChunkSection {
    data: PackedArray,
    palette: Vec<u16>,
    block_light: PackedArray,
    sky_light: PackedArray,
}

impl ChunkSection {
    /// The palette index of each block.
    pub closed spec fn indices(&self) -> Seq<u64> {
        self.data@
    }

    /// The width at which the palette indices are stored.
    pub closed spec fn index_bits(&self) -> usize {
        self.data.spec_bits_per_value()
    }

    /// The words that hold the palette indices.
    pub closed spec fn index_words(&self) -> Seq<u64> {
        self.data.raw()
    }

    /// The block state of each palette index.
    pub closed spec fn palette(&self) -> Seq<u16> {
        self.palette@
    }

    /// The block light level of each block.
    pub closed spec fn block_light(&self) -> Seq<u64> {
        self.block_light@
    }

    /// The sky light level of each block.
    pub closed spec fn sky_light(&self) -> Seq<u64> {
        self.sky_light@
    }

    /// The words that hold the block light levels.
    pub closed spec fn block_light_words(&self) -> Seq<u64> {
        self.block_light.raw()
    }

    /// The words that hold the sky light levels.
    pub closed spec fn sky_light_words(&self) -> Seq<u64> {
        self.sky_light.raw()
    }

    /// The block state of each block.
    pub open spec fn blocks(&self) -> Seq<u16> {
        Seq::new(SECTION_VOLUME as nat, |i: int| self.palette()[self.indices()[i] as int])
    }

    /// What this section holds.
    pub open spec fn content(&self) -> SectionContent {
        SectionContent {
            palette: self.palette(),
            indices: self.indices(),
            index_bits: self.index_bits() as int,
            index_words: self.index_words(),
            block_light: self.block_light(),
            block_light_words: self.block_light_words(),
            sky_light: self.sky_light(),
            sky_light_words: self.sky_light_words(),
        }
    }

    /// A section holds 4096 blocks, each with an index into the palette
    /// and two light levels stored in 256 words each.
    pub closed spec fn wf(&self) -> bool {
        &&& self.data.wf()
        &&& self.data.spec_len() == SECTION_VOLUME
        &&& forall|i: int| 0 <= i < SECTION_VOLUME ==> (#[trigger] self.data@[i]) < self.palette@.len()
        &&& light_ok(self.block_light)
        &&& light_ok(self.sky_light)
    }

    /// What holds of a section: its sizes, its indices and its widths.
    pub proof fn lemma_wf(&self)
        requires
            self.wf(),
        ensures
            self.indices().len() == SECTION_VOLUME,
            self.block_light().len() == SECTION_VOLUME,
            self.sky_light().len() == SECTION_VOLUME,
            self.block_light_words().len() == LIGHT_WORDS,
            self.sky_light_words().len() == LIGHT_WORDS,
            forall|i: int|
                0 <= i < SECTION_VOLUME ==> (#[trigger] self.indices()[i]) < self.palette().len(),
            forall|i: int| 0 <= i < SECTION_VOLUME ==> (#[trigger] self.block_light()[i]) < 16,
            forall|i: int| 0 <= i < SECTION_VOLUME ==> (#[trigger] self.sky_light()[i]) < 16,
            self.indices() == crate::packed_array::unpack_all(
                self.index_words(),
                SECTION_VOLUME as int,
                self.index_bits() as int,
            ),
            self.block_light() == crate::packed_array::unpack_all(
                self.block_light_words(),
                SECTION_VOLUME as int,
                LIGHT_BITS as int,
            ),
            self.sky_light() == crate::packed_array::unpack_all(
                self.sky_light_words(),
                SECTION_VOLUME as int,
                LIGHT_BITS as int,
            ),
    {
        self.data.lemma_view();
        self.block_light.lemma_view();
        self.sky_light.lemma_view();
        assert(mask_of(4) == 15) by (bit_vector);
    }

    /// Whether the parts given to `new` make a section.
    pub open spec fn parts_ok(
        data: PackedArray,
        palette: Seq<u16>,
        block_light: PackedArray,
        sky_light: PackedArray,
    ) -> bool {
        &&& data.spec_len() == SECTION_VOLUME
        &&& forall|i: int| 0 <= i < SECTION_VOLUME ==> (#[trigger] data@[i]) < palette.len()
        &&& light_ok(block_light)
        &&& light_ok(sky_light)
    }

    /// Creates a section from its parts, or returns `None` where they do
    /// not make a section: each array must hold 4096 values, every index
    /// must lie within the palette and the light levels must be 4 bits wide
    /// and stored in 256 words.
    pub fn new(
        data: PackedArray,
        palette: Vec<u16>,
        block_light: PackedArray,
        sky_light: PackedArray,
    ) -> (r: Option<Self>)
        requires
            data.wf(),
            block_light.wf(),
            sky_light.wf(),
        ensures
            r is Some <==> Self::parts_ok(data, palette@, block_light, sky_light),
            r matches Some(section) ==> {
                &&& section.wf()
                &&& section.indices() == data@
                &&& section.index_bits() == data.spec_bits_per_value()
                &&& section.index_words() == data.raw()
                &&& section.palette() == palette@
                &&& section.block_light() == block_light@
                &&& section.sky_light() == sky_light@
                &&& section.block_light_words() == block_light.raw()
                &&& section.sky_light_words() == sky_light.raw()
            },
    {
        if data.len() != SECTION_VOLUME || !light_fits(&block_light) || !light_fits(&sky_light) {
            return None;
        }
        proof {
            data.lemma_view();
        }
        let mut i: usize = 0;
        while i < SECTION_VOLUME
            invariant
                i <= SECTION_VOLUME,
                data.wf(),
                data.spec_len() == SECTION_VOLUME,
                data@.len() == SECTION_VOLUME,
                forall|j: int| 0 <= j < i ==> (#[trigger] data@[j]) < palette@.len(),
            decreases SECTION_VOLUME - i,
        {
            match data.get(i) {
                Some(index) => {
                    if index >= palette.len() as u64 {
                        return None;
                    }
                },
                None => {
                    return None;
                },
            }
            i = i + 1;
        }
        Some(ChunkSection { data, palette, block_light, sky_light })
    }

    /// A section in which every block has the state `block` and no light.
    pub fn filled(block: u16) -> (r: Self)
        ensures
            r.wf(),
            r.palette() == seq![block],
            r.indices() == fill_spec(SECTION_VOLUME as nat, 0),
            r.index_bits() == 1,
            r.index_words() == Seq::new(64, |k: int| 0u64),
            r.block_light() == fill_spec(SECTION_VOLUME as nat, 0),
            r.sky_light() == fill_spec(SECTION_VOLUME as nat, 0),
            r.block_light_words() == Seq::new(LIGHT_WORDS as nat, |k: int| 0u64),
            r.sky_light_words() == Seq::new(LIGHT_WORDS as nat, |k: int| 0u64),
            forall|i: int| 0 <= i < SECTION_VOLUME ==> #[trigger] r.blocks()[i] == block,
    {
        let data = PackedArray::new(SECTION_VOLUME, 1);
        let block_light = PackedArray::new(SECTION_VOLUME, LIGHT_BITS);
        let sky_light = PackedArray::new(SECTION_VOLUME, LIGHT_BITS);
        let mut palette: Vec<u16> = Vec::new();
        palette.push(block);
        let r = ChunkSection { data, palette, block_light, sky_light };
        proof {
            assert forall|i: int| 0 <= i < SECTION_VOLUME implies (#[trigger] r.data@[i]) < r.palette@.len() by {
                assert(r.data@[i] == 0);
            }
            lemma_light_words();
            assert(64int / 1 == 64) by (nonlinear_arith);
            assert(4096int % 64 == 0 && 4096int / 64 == 64) by (nonlinear_arith);
            assert forall|i: int| 0 <= i < SECTION_VOLUME implies #[trigger] r.blocks()[i] == block by {
                assert(r.data@[i] == 0);
            }
        }
        r
    }

    /// The block state at `index`.
    pub fn block_at(&self, index: usize) -> (r: u16)
        requires
            self.wf(),
            index < SECTION_VOLUME,
        ensures
            r == self.blocks()[index as int],
    {
        proof {
            self.data.lemma_view();
            assert(self.data@[index as int] < self.palette@.len());
        }
        let entries = self.palette.len();
        match self.data.get(index) {
            Some(entry) => self.palette[entry as usize],
            None => 0,
        }
    }

    /// Sets the block state at `index`. A state that the palette does not
    /// hold yet is added to it, and the indices are widened where the
    /// palette outgrows their width.
    pub fn set_block_at(&mut self, index: usize, block: u16)
        requires
            old(self).wf(),
            index < SECTION_VOLUME,
        ensures
            final(self).wf(),
            final(self).blocks() == old(self).blocks().update(index as int, block),
            final(self).palette() == if old(self).palette().contains(block) {
                old(self).palette()
            } else {
                old(self).palette().push(block)
            },
            is_first_index(final(self).palette(), block, final(self).indices()[index as int] as int),
            forall|i: int|
                0 <= i < SECTION_VOLUME && i != index ==> #[trigger] final(self).indices()[i] == old(
                    self,
                ).indices()[i],
            final(self).index_bits() == if final(self).indices()[index as int] > mask_of(
                old(self).index_bits() as u64,
            ) {
                palette_bits(final(self).palette().len() as int)
            } else {
                old(self).index_bits() as int
            },
            final(self).index_words() == ({
                let entry = final(self).indices()[index as int];
                let bits = final(self).index_bits() as int;
                let words = if entry > mask_of(old(self).index_bits() as u64) {
                    packed_words(old(self).indices(), bits)
                } else {
                    old(self).index_words()
                };
                let word = index as int / values_per_word(bits);
                words.update(word, with_slot(words[word], index as int % values_per_word(bits), bits, entry))
            }),
            final(self).block_light() == old(self).block_light(),
            final(self).sky_light() == old(self).sky_light(),
            final(self).block_light_words() == old(self).block_light_words(),
            final(self).sky_light_words() == old(self).sky_light_words(),
    {
        proof {
            self.data.lemma_view();
        }
        let entry = match find(&self.palette, block) {
            Some(entry) => entry,
            None => {
                self.palette.push(block);
                self.palette.len() - 1
            },
        };
        if entry as u64 > self.data.max_value() {
            // The palette has outgrown the width of the indices.
            let wider = bits_for_palette(self.palette.len());
            proof {
                lemma_indices_fit(self.data@, self.palette@.len() as int, wider as int);
            }
            self.data = self.data.resized(wider);
        }
        proof {
            self.data.lemma_view();
        }
        let ghost before = self.data@;
        self.data.set(index, entry as u64);
        proof {
            assert(before == old(self).data@);
            assert forall|i: int| 0 <= i < SECTION_VOLUME implies #[trigger] self.blocks()[i] == old(
                self,
            ).blocks().update(index as int, block)[i] by {
                if i != index {
                    assert(self.data@[i] == old(self).data@[i]);
                    assert(old(self).data@[i] < old(self).palette@.len());
                }
            }
            assert(self.blocks() =~= old(self).blocks().update(index as int, block));
            assert forall|i: int| 0 <= i < SECTION_VOLUME implies (#[trigger] self.data@[i])
                < self.palette@.len() by {
                if i != index {
                    assert(self.data@[i] == old(self).data@[i]);
                    assert(old(self).data@[i] < old(self).palette@.len());
                }
            }
        }
    }

    /// The palette index of the block at `index`.
    pub fn index_at(&self, index: usize) -> (r: usize)
        requires
            self.wf(),
            index < SECTION_VOLUME,
        ensures
            r == self.indices()[index as int],
            r < self.palette().len(),
    {
        proof {
            self.data.lemma_view();
            assert(self.data@[index as int] < self.palette@.len());
        }
        let entries = self.palette.len();
        match self.data.get(index) {
            Some(entry) => entry as usize,
            None => 0,
        }
    }

    /// The block states of the palette, by palette index.
    pub fn palette_ids(&self) -> (r: &Vec<u16>)
        ensures
            r@ == self.palette(),
    {
        &self.palette
    }

    /// The block light level at `index`.
    pub fn block_light_at(&self, index: usize) -> (r: u8)
        requires
            self.wf(),
            index < SECTION_VOLUME,
        ensures
            r == self.block_light()[index as int],
            r < 16,
    {
        light_at(&self.block_light, index)
    }

    /// The sky light level at `index`.
    pub fn sky_light_at(&self, index: usize) -> (r: u8)
        requires
            self.wf(),
            index < SECTION_VOLUME,
        ensures
            r == self.sky_light()[index as int],
            r < 16,
    {
        light_at(&self.sky_light, index)
    }

    /// Sets the block light level at `index`.
    pub fn set_block_light_at(&mut self, index: usize, level: u8)
        requires
            old(self).wf(),
            index < SECTION_VOLUME,
            level < 16,
        ensures
            final(self).wf(),
            final(self).block_light() == old(self).block_light().update(index as int, level as u64),
            final(self).block_light_words() == old(self).block_light_words().update(
                index as int / 16,
                with_slot(
                    old(self).block_light_words()[index as int / 16],
                    index as int % 16,
                    LIGHT_BITS as int,
                    level as u64,
                ),
            ),
            final(self).sky_light() == old(self).sky_light(),
            final(self).sky_light_words() == old(self).sky_light_words(),
            final(self).blocks() == old(self).blocks(),
            final(self).palette() == old(self).palette(),
            final(self).indices() == old(self).indices(),
            final(self).index_bits() == old(self).index_bits(),
            final(self).index_words() == old(self).index_words(),
    {
        proof {
            assert(mask_of(4) == 15) by (bit_vector);
            lemma_light_words();
        }
        self.block_light.set(index, level as u64);
    }

    /// Sets the sky light level at `index`.
    pub fn set_sky_light_at(&mut self, index: usize, level: u8)
        requires
            old(self).wf(),
            index < SECTION_VOLUME,
            level < 16,
        ensures
            final(self).wf(),
            final(self).sky_light() == old(self).sky_light().update(index as int, level as u64),
            final(self).sky_light_words() == old(self).sky_light_words().update(
                index as int / 16,
                with_slot(
                    old(self).sky_light_words()[index as int / 16],
                    index as int % 16,
                    LIGHT_BITS as int,
                    level as u64,
                ),
            ),
            final(self).block_light() == old(self).block_light(),
            final(self).block_light_words() == old(self).block_light_words(),
            final(self).blocks() == old(self).blocks(),
            final(self).palette() == old(self).palette(),
            final(self).indices() == old(self).indices(),
            final(self).index_bits() == old(self).index_bits(),
            final(self).index_words() == old(self).index_words(),
    {
        proof {
            assert(mask_of(4) == 15) by (bit_vector);
            lemma_light_words();
        }
        self.sky_light.set(index, level as u64);
    }

    /// The block states of this section, by block index.
    pub fn block_states(&self) -> (r: Vec<u16>)
        requires
            self.wf(),
        ensures
            r@ == self.blocks(),
    {
        let mut out: Vec<u16> = Vec::with_capacity(SECTION_VOLUME);
        let mut i: usize = 0;
        while i < SECTION_VOLUME
            invariant
                self.wf(),
                i <= SECTION_VOLUME,
                out@.len() == i,
                forall|j: int| 0 <= j < i ==> #[trigger] out@[j] == self.blocks()[j],
            decreases SECTION_VOLUME - i,
        {
            out.push(self.block_at(i));
            i = i + 1;
        }
        proof {
            assert(out@ =~= self.blocks());
        }
        out
    }

    /// The shortest palette of this section and its blocks as indices into
    /// it, stored at the smallest width that fits the palette.
    pub fn compacted(&self) -> (r: (Vec<u16>, PackedArray))
        requires
            self.wf(),
        ensures
            r.0@ == distinct(self.blocks(), SECTION_VOLUME as int),
            r.0@.no_duplicates(),
            r.1.wf(),
            r.1.spec_len() == SECTION_VOLUME,
            r.1.spec_bits_per_value() == palette_bits(r.0@.len() as int),
            r.1.raw().len() == crate::packed_array::words_needed(
                SECTION_VOLUME as int,
                palette_bits(r.0@.len() as int),
            ),
            r.1.raw() == crate::packed_array::packed_words(r.1@, palette_bits(r.0@.len() as int)),
            spells(r.0@, r.1@, self.blocks()),
    {
        let blocks = self.block_states();
        compact_palette(&blocks)
    }

    /// The words that hold the block light levels.
    pub fn block_light_raw(&self) -> (r: &[u64])
        ensures
            r@ == self.block_light_words(),
    {
        self.block_light.as_u64_slice()
    }

    /// The words that hold the sky light levels.
    pub fn sky_light_raw(&self) -> (r: &[u64])
        ensures
            r@ == self.sky_light_words(),
    {
        self.sky_light.as_u64_slice()
    }
}

impl Clone for ChunkSection {
    fn clone(&self) -> (r: Self)
        ensures
            r.wf() == self.wf(),
            r.indices() == self.indices(),
            r.index_bits() == self.index_bits(),
            r.index_words() == self.index_words(),
            r.palette() == self.palette(),
            r.block_light() == self.block_light(),
            r.sky_light() == self.sky_light(),
            r.block_light_words() == self.block_light_words(),
            r.sky_light_words() == self.sky_light_words(),
    {
        let palette = self.palette.clone();
        proof {
            assert(palette@ =~= self.palette@);
        }
        ChunkSection {
            data: self.data.clone(),
            palette,
            block_light: self.block_light.clone(),
            sky_light: self.sky_light.clone(),
        }
    }
}

/// The six heights of a block column, each the number of blocks up to and
/// with the highest block that counts for that heightmap.
#[derive(Clone, Copy, Debug, PartialEq, Eq, Structural)]
pub struct ColumnHeights {
    pub motion_blocking: u16,
    pub motion_blocking_no_leaves: u16,
    pub ocean_floor: u16,
    pub ocean_floor_wg: u16,
    pub world_surface: u16,
    pub world_surface_wg: u16,
}

impl ColumnHeights {
    /// The heights of an empty column.
    pub fn zero() -> (r: Self)
        ensures
            r == (ColumnHeights {
                motion_blocking: 0,
                motion_blocking_no_leaves: 0,
                ocean_floor: 0,
                ocean_floor_wg: 0,
                world_surface: 0,
                world_surface_wg: 0,
            }),
    {
        ColumnHeights {
            motion_blocking: 0,
            motion_blocking_no_leaves: 0,
            ocean_floor: 0,
            ocean_floor_wg: 0,
            world_surface: 0,
            world_surface_wg: 0,
        }
    }
}

/// A column of the world: 16 sections, of which some are populated, a
/// biome for each of its 256 block columns and their heights.
#[derive(Debug)]
pub struct Chunk {
    position: ChunkPosition,
    sections: Vec<Option<ChunkSection>>,
    biomes: Vec<i32>,
    heightmaps: Vec<ColumnHeights>,
}

impl Chunk {
    /// The position of this chunk.
    pub closed spec fn spec_position(&self) -> ChunkPosition {
        self.position
    }

    /// The sections of this chunk from the lowest to the highest, `None`
    /// where a section is not populated.
    pub closed spec fn sections(&self) -> Seq<Option<ChunkSection>> {
        self.sections@
    }

    /// What the section at height `y` holds, `None` where it is not
    /// populated.
    pub open spec fn content_at(&self, y: int) -> Option<SectionContent> {
        match self.sections()[y] {
            Some(section) => Some(section.content()),
            None => None,
        }
    }

    /// The biome id of each block column.
    pub closed spec fn biomes(&self) -> Seq<i32> {
        self.biomes@
    }

    /// The heights of each block column.
    pub closed spec fn heightmaps(&self) -> Seq<ColumnHeights> {
        self.heightmaps@
    }

    /// A chunk has 16 sections, 256 biomes and 256 columns of heights, and
    /// each of its populated sections is a section.
    pub open spec fn wf(&self) -> bool {
        &&& self.sections().len() == SECTION_COUNT
        &&& self.biomes().len() == COLUMN_COUNT
        &&& self.heightmaps().len() == COLUMN_COUNT
        &&& forall|y: int|
            0 <= y < SECTION_COUNT ==> ((#[trigger] self.sections()[y]) matches Some(section)
                ==> section.wf())
    }

    /// Creates a chunk without populated sections, with biome 0 and height
    /// 0 in every column.
    pub fn new(position: ChunkPosition) -> (r: Self)
        ensures
            r.wf(),
            r.spec_position() == position,
            forall|y: int| 0 <= y < SECTION_COUNT ==> (#[trigger] r.sections()[y]) is None,
            forall|i: int| 0 <= i < COLUMN_COUNT ==> #[trigger] r.biomes()[i] == 0,
            forall|i: int|
                0 <= i < COLUMN_COUNT ==> #[trigger] r.heightmaps()[i] == (ColumnHeights {
                    motion_blocking: 0,
                    motion_blocking_no_leaves: 0,
                    ocean_floor: 0,
                    ocean_floor_wg: 0,
                    world_surface: 0,
                    world_surface_wg: 0,
                }),
    {
        let mut sections: Vec<Option<ChunkSection>> = Vec::with_capacity(SECTION_COUNT);
        let mut y: usize = 0;
        while y < SECTION_COUNT
            invariant
                y <= SECTION_COUNT,
                sections@.len() == y,
                forall|j: int| 0 <= j < y ==> (#[trigger] sections@[j]) is None,
            decreases SECTION_COUNT - y,
        {
            sections.push(None);
            y = y + 1;
        }
        let mut biomes: Vec<i32> = Vec::with_capacity(COLUMN_COUNT);
        let mut heightmaps: Vec<ColumnHeights> = Vec::with_capacity(COLUMN_COUNT);
        let mut i: usize = 0;
        while i < COLUMN_COUNT
            invariant
                i <= COLUMN_COUNT,
                biomes@.len() == i,
                heightmaps@.len() == i,
                forall|j: int| 0 <= j < i ==> #[trigger] biomes@[j] == 0,
                forall|j: int|
                    0 <= j < i ==> #[trigger] heightmaps@[j] == (ColumnHeights {
                        motion_blocking: 0,
                        motion_blocking_no_leaves: 0,
                        ocean_floor: 0,
                        ocean_floor_wg: 0,
                        world_surface: 0,
                        world_surface_wg: 0,
                    }),
            decreases COLUMN_COUNT - i,
        {
            biomes.push(0);
            heightmaps.push(ColumnHeights::zero());
            i = i + 1;
        }
        Chunk { position, sections, biomes, heightmaps }
    }

    /// The position of this chunk.
    #[verifier::when_used_as_spec(spec_position)]
    pub fn position(&self) -> (r: ChunkPosition)
        ensures
            r == self.spec_position(),
    {
        self.position
    }

    /// The section at height `y`, if it is populated.
    pub fn section(&self, y: usize) -> (r: Option<&ChunkSection>)
        requires
            self.wf(),
            y < SECTION_COUNT,
        ensures
            match r {
                Some(section) => self.sections()[y as int] == Some(*section),
                None => self.sections()[y as int] is None,
            },
    {
        self.sections[y].as_ref()
    }

    /// Puts `section` at height `y`, or empties that height.
    pub fn set_section_at(&mut self, y: usize, section: Option<ChunkSection>)
        requires
            old(self).wf(),
            y < SECTION_COUNT,
            section matches Some(s) ==> s.wf(),
        ensures
            final(self).wf(),
            final(self).sections() == old(self).sections().update(y as int, section),
            final(self).biomes() == old(self).biomes(),
            final(self).heightmaps() == old(self).heightmaps(),
            final(self).spec_position() == old(self).spec_position(),
    {
        self.sections.set(y, section);
    }

    /// The biome id of the block column `column`.
    pub fn biome_at(&self, column: usize) -> (r: i32)
        requires
            self.wf(),
            column < COLUMN_COUNT,
        ensures
            r == self.biomes()[column as int],
    {
        self.biomes[column]
    }

    /// Sets the biome id of the block column `column`.
    pub fn set_biome_at(&mut self, column: usize, biome: i32)
        requires
            old(self).wf(),
            column < COLUMN_COUNT,
        ensures
            final(self).wf(),
            final(self).biomes() == old(self).biomes().update(column as int, biome),
            final(self).sections() == old(self).sections(),
            final(self).heightmaps() == old(self).heightmaps(),
            final(self).spec_position() == old(self).spec_position(),
    {
        self.biomes.set(column, biome);
    }

    /// The heights of the block column `column`.
    pub fn heights_at(&self, column: usize) -> (r: ColumnHeights)
        requires
            self.wf(),
            column < COLUMN_COUNT,
        ensures
            r == self.heightmaps()[column as int],
    {
        self.heightmaps[column]
    }

    /// Sets the heights of the block column `column`.
    pub fn set_heights_at(&mut self, column: usize, heights: ColumnHeights)
        requires
            old(self).wf(),
            column < COLUMN_COUNT,
        ensures
            final(self).wf(),
            final(self).heightmaps() == old(self).heightmaps().update(column as int, heights),
            final(self).sections() == old(self).sections(),
            final(self).biomes() == old(self).biomes(),
            final(self).spec_position() == old(self).spec_position(),
    {
        self.heightmaps.set(column, heights);
    }
}

/// Whether `light` holds the light levels of a section: 4096 values of 4
/// bits in 256 words.
pub open spec fn light_ok(light: PackedArray) -> bool {
    &&& light.wf()
    &&& light.spec_len() == SECTION_VOLUME
    &&& light.spec_bits_per_value() == LIGHT_BITS
    &&& light.raw().len() == LIGHT_WORDS
}

fn light_fits(light: &PackedArray) -> (r: bool)
    requires
        light.wf(),
    ensures
        r == light_ok(*light),
{
    light.len() == SECTION_VOLUME && light.bits_per_value() == LIGHT_BITS && light.as_u64_slice().len()
        == LIGHT_WORDS
}

fn light_at(light: &PackedArray, index: usize) -> (r: u8)
    requires
        light_ok(*light),
        index < SECTION_VOLUME,
    ensures
        r == light@[index as int],
        r < 16,
{
    proof {
        light.lemma_view();
        assert(mask_of(4) == 15) by (bit_vector);
    }
    match light.get(index) {
        Some(level) => level as u8,
        None => 0,
    }
}

/// The light levels of a section take 256 words.
pub proof fn lemma_light_words()
    ensures
        crate::packed_array::words_needed(SECTION_VOLUME as int, LIGHT_BITS as int) == LIGHT_WORDS,
        crate::packed_array::values_per_word(LIGHT_BITS as int) == 16,
{
    assert(64int / 4 == 16) by (nonlinear_arith);
    assert(4096int % 16 == 0 && 4096int / 16 == 256) by (nonlinear_arith);
}

/// Indices below a palette's length fit the width chosen for that length.
pub proof fn lemma_indices_fit(indices: Seq<u64>, entries: int, width: int)
    requires
        forall|i: int| 0 <= i < indices.len() ==> (#[trigger] indices[i]) < entries,
        1 <= width <= 64,
        entries <= mask_of(width as u64) + 1,
    ensures
        crate::packed_array::all_fit(indices, width),
{
}

} // verus!
