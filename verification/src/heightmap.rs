//! The heightmaps of a chunk, computed from its blocks.
//!
//! A chunk keeps six heights for each of its block columns. The height of
//! a column in heightmap `k` is the number of blocks up to and with the
//! highest block whose state counts for that heightmap, and 0 where no
//! block of the column does. Which states count is told by the table of
//! block states.

use crate::chunk::{Chunk, ChunkSection, ColumnHeights, COLUMN_COUNT, SECTION_COUNT};
use crate::tables::BlockStateTable;
use vstd::prelude::*;

verus! {

/// The number of heightmaps.
pub const HEIGHTMAP_COUNT: u8 = 6;

/// The number of blocks in a column of a chunk.
pub const CHUNK_HEIGHT: usize = 256;

/// The heightmaps that a block state counts for, one bit each: none
/// where the table does not hold the state.
pub open spec fn flags_of(table: BlockStateTable, block: u16) -> u8 {
    match table.spec_describe(block) {
        Some(i) => table.states@[i].heightmaps,
        None => 0,
    }
}

/// Whether bit `k` of `flags` is set.
pub open spec fn has_flag(flags: u8, k: u8) -> bool {
    (flags >> k) & 1 == 1
}

/// The index, within its section, of the block of column `column` at the
/// height `y` of the chunk.
pub open spec fn index_in_section(column: int, y: int) -> int {
    (y % 16) * 256 + column
}

/// Whether the block of column `column` at the height `y` counts for
/// heightmap `k`. A height in a section that is not populated holds no
/// block.
pub open spec fn counts(
    sections: Seq<Option<ChunkSection>>,
    table: BlockStateTable,
    column: int,
    k: u8,
    y: int,
) -> bool {
    match sections[y / 16] {
        Some(section) => has_flag(flags_of(table, section.blocks()[index_in_section(column, y)]), k),
        None => false,
    }
}

/// The height of column `column` in heightmap `k`, counting only the
/// blocks below `top`.
pub open spec fn height_below(
    sections: Seq<Option<ChunkSection>>,
    table: BlockStateTable,
    column: int,
    k: u8,
    top: int,
) -> int
    decreases top,
{
    if top <= 0 {
        0
    } else if counts(sections, table, column, k, top - 1) {
        top
    } else {
        height_below(sections, table, column, k, top - 1)
    }
}

/// The six heights of column `column`.
pub open spec fn column_heights(
    sections: Seq<Option<ChunkSection>>,
    table: BlockStateTable,
    column: int,
) -> ColumnHeights {
    ColumnHeights {
        motion_blocking: height_below(sections, table, column, 0, CHUNK_HEIGHT as int) as u16,
        motion_blocking_no_leaves: height_below(sections, table, column, 1, CHUNK_HEIGHT as int) as u16,
        ocean_floor: height_below(sections, table, column, 2, CHUNK_HEIGHT as int) as u16,
        ocean_floor_wg: height_below(sections, table, column, 3, CHUNK_HEIGHT as int) as u16,
        world_surface: height_below(sections, table, column, 4, CHUNK_HEIGHT as int) as u16,
        world_surface_wg: height_below(sections, table, column, 5, CHUNK_HEIGHT as int) as u16,
    }
}

/// Whether `flags` holds, for each populated section, the heightmap flags
/// of each entry of its palette.
pub open spec fn flags_ok(
    sections: Seq<Option<ChunkSection>>,
    table: BlockStateTable,
    flags: Seq<Vec<u8>>,
) -> bool {
    &&& flags.len() == SECTION_COUNT
    &&& forall|y: int|
        0 <= y < SECTION_COUNT ==> ((#[trigger] sections[y]) matches Some(section) ==> {
            &&& flags[y]@.len() == section.palette().len()
            &&& forall|e: int|
                0 <= e < section.palette().len() ==> #[trigger] flags[y]@[e] == flags_of(
                    table,
                    section.palette()[e],
                )
        })
}

fn palette_flags(section: &ChunkSection, table: &BlockStateTable) -> (r: Vec<u8>)
    ensures
        r@.len() == section.palette().len(),
        forall|e: int|
            0 <= e < section.palette().len() ==> #[trigger] r@[e] == flags_of(
                *table,
                section.palette()[e],
            ),
{
    let palette = section.palette_ids();
    let mut out: Vec<u8> = Vec::with_capacity(palette.len());
    let mut e: usize = 0;
    while e < palette.len()
        invariant
            e <= palette@.len(),
            palette@ == section.palette(),
            out@.len() == e,
            forall|j: int| 0 <= j < e ==> #[trigger] out@[j] == flags_of(*table, palette@[j]),
        decreases palette@.len() - e,
    {
        let flags = match table.describe(palette[e]) {
            Some(state) => state.heightmaps,
            None => 0,
        };
        out.push(flags);
        e = e + 1;
    }
    out
}

fn column_height(
    chunk: &Chunk,
    table: &BlockStateTable,
    flags: &Vec<Vec<u8>>,
    column: usize,
    k: u8,
) -> (r: u16)
    requires
        chunk.wf(),
        flags_ok(chunk.sections(), *table, flags@),
        column < COLUMN_COUNT,
        k < HEIGHTMAP_COUNT,
    ensures
        r == height_below(chunk.sections(), *table, column as int, k, CHUNK_HEIGHT as int),
        r <= CHUNK_HEIGHT,
{
    let mut top: usize = CHUNK_HEIGHT;
    while top > 0
        invariant
            chunk.wf(),
            flags_ok(chunk.sections(), *table, flags@),
            column < COLUMN_COUNT,
            k < HEIGHTMAP_COUNT,
            top <= CHUNK_HEIGHT,
            height_below(chunk.sections(), *table, column as int, k, CHUNK_HEIGHT as int)
                == height_below(chunk.sections(), *table, column as int, k, top as int),
        decreases top,
    {
        let y = top - 1;
        let counted = match chunk.section(y / 16) {
            Some(section) => {
                let entry = section.index_at((y % 16) * 256 + column);
                let entry_flags = flags[y / 16][entry];
                (entry_flags >> k) & 1 == 1
            },
            None => false,
        };
        if counted {
            return top as u16;
        }
        top = y;
    }
    0
}

/// Computes the six heights of every column of the chunk from its blocks.
pub fn recalculate_heightmap(chunk: &mut Chunk, table: &BlockStateTable)
    requires
        old(chunk).wf(),
    ensures
        final(chunk).wf(),
        final(chunk).sections() == old(chunk).sections(),
        final(chunk).biomes() == old(chunk).biomes(),
        final(chunk).spec_position() == old(chunk).spec_position(),
        forall|column: int|
            0 <= column < COLUMN_COUNT ==> #[trigger] final(chunk).heightmaps()[column]
                == column_heights(old(chunk).sections(), *table, column),
{
    let mut flags: Vec<Vec<u8>> = Vec::with_capacity(SECTION_COUNT);
    let mut y: usize = 0;
    while y < SECTION_COUNT
        invariant
            chunk.wf(),
            y <= SECTION_COUNT,
            flags@.len() == y,
            forall|j: int|
                0 <= j < y ==> ((#[trigger] chunk.sections()[j]) matches Some(section) ==> {
                    &&& flags@[j]@.len() == section.palette().len()
                    &&& forall|e: int|
                        0 <= e < section.palette().len() ==> #[trigger] flags@[j]@[e] == flags_of(
                            *table,
                            section.palette()[e],
                        )
                }),
        decreases SECTION_COUNT - y,
    {
        let section_flags = match chunk.section(y) {
            Some(section) => palette_flags(section, table),
            None => Vec::new(),
        };
        flags.push(section_flags);
        y = y + 1;
    }
    let mut column: usize = 0;
    while column < COLUMN_COUNT
        invariant
            chunk.wf(),
            column <= COLUMN_COUNT,
            chunk.sections() == old(chunk).sections(),
            chunk.biomes() == old(chunk).biomes(),
            chunk.spec_position() == old(chunk).spec_position(),
            flags_ok(chunk.sections(), *table, flags@),
            forall|c: int|
                0 <= c < column ==> #[trigger] chunk.heightmaps()[c] == column_heights(
                    old(chunk).sections(),
                    *table,
                    c,
                ),
        decreases COLUMN_COUNT - column,
    {
        let heights = ColumnHeights {
            motion_blocking: column_height(chunk, table, &flags, column, 0),
            motion_blocking_no_leaves: column_height(chunk, table, &flags, column, 1),
            ocean_floor: column_height(chunk, table, &flags, column, 2),
            ocean_floor_wg: column_height(chunk, table, &flags, column, 3),
            world_surface: column_height(chunk, table, &flags, column, 4),
            world_surface_wg: column_height(chunk, table, &flags, column, 5),
        };
        chunk.set_heights_at(column, heights);
        column = column + 1;
    }
}

} // verus!
