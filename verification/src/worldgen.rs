//! World generation.

use crate::chunk::{Chunk, COLUMN_COUNT, SECTION_COUNT};
use crate::header::ChunkPosition;
use vstd::prelude::*;

verus! {

/// A generator of chunks.
pub trait WorldGenerator {
    /// Generates the chunk at the given position.
    fn generate_chunk(&self, position: ChunkPosition) -> (r: Chunk)
        ensures
            r.wf(),
            r.spec_position() == position,
    ;
}

/// The generator of a world without blocks.
pub struct EmptyWorldGenerator {}

/// A chunk without populated sections and with biome 0 in every column.
pub open spec fn is_empty_chunk(chunk: Chunk) -> bool {
    &&& chunk.sections() == Seq::new(SECTION_COUNT as nat, |y: int| None::<crate::chunk::ChunkSection>)
    &&& chunk.biomes() == Seq::new(COLUMN_COUNT as nat, |i: int| 0i32)
}

impl WorldGenerator for EmptyWorldGenerator {
    fn generate_chunk(&self, position: ChunkPosition) -> (r: Chunk)
        ensures
            is_empty_chunk(r),
    {
        let chunk = Chunk::new(position);
        proof {
            assert(chunk.sections() =~= Seq::new(
                SECTION_COUNT as nat,
                |y: int| None::<crate::chunk::ChunkSection>,
            ));
            assert(chunk.biomes() =~= Seq::new(COLUMN_COUNT as nat, |i: int| 0i32));
            assert(is_empty_chunk(chunk));
        }
        chunk
    }
}

/// The index of the block at `(x, y, z)` in a world that is `world_height`
/// blocks high from `min_y` upwards.
pub open spec fn spec_block_index(x: usize, y: i32, z: usize, min_y: i32) -> int {
    (y - min_y) * 256 + x * 16 + z
}

/// Returns an index into a one-dimensional array
/// for the given x, y, and z values.
pub fn block_index(x: usize, y: i32, z: usize, world_height: u32, min_y: i32) -> (r: usize)
    requires
        x < 16,
        z < 16,
        min_y <= y < min_y + world_height,
        (y - min_y) * 256 + 255 <= usize::MAX,
    ensures
        r == spec_block_index(x, y, z, min_y),
        r < world_height * 256,
{
    let layer = (y as i64 - min_y as i64) as u64;
    let column = x as u64;
    let row = z as u64;
    assert((layer << 8) | (column << 4) | row == layer * 256 + column * 16 + row) by (bit_vector)
        requires
            column < 16,
            row < 16,
            layer < 0x1_0000_0000,
    ;
    ((layer << 8) | (column << 4) | row) as usize
}

} // verus!
