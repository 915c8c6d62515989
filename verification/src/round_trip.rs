//! What holds of writing a chunk record and reading it back.

use crate::chunk::{Chunk, ChunkSection, COLUMN_COUNT, SECTION_COUNT, SECTION_VOLUME};
use crate::codec::{
    decoded_indices, decoded_light, entry_id, entry_properties, first_fault, first_invalid,
    indices_within, is_decoded, is_encoded, is_loaded, is_record, last_at_height,
    lemma_light_round_trip, palette_resolves, populated, record_fault, resolves_to, section_fault,
    sections_encoded, ChunkRoot, LevelPaletteEntry, LevelSection,
};
use crate::packed_array::{
    derived_width, lemma_per_word_bounds, raw_geometry_ok, unpack_all, words_from_signed,
    words_needed,
};
use crate::palette::{distinct, palette_bits, pow2_u64, width_from};
use crate::tables::{
    first_match, lemma_first_with_id, same_properties, state_matches, BiomeTable, BlockState,
    BlockStateTable, Property,
};
use vstd::prelude::*;

verus! {

/// Whether palette indices stored at `bits` bits are read back at that
/// width: the width that a reader derives from the number of words is the
/// width that the writer chose.
pub open spec fn width_survives(bits: int) -> bool {
    derived_width(words_needed(SECTION_VOLUME as int, bits), SECTION_VOLUME as int) == bits
}

/// The widths up to 12 bits are read back as they were written, but for
/// 11: at 11 bits a word holds 5 indices, as it does at 12, and the reader
/// takes the 820 words for indices of 12 bits.
pub proof fn law_widths_that_survive(bits: int)
    requires
        1 <= bits <= 12,
    ensures
        width_survives(bits) <==> bits != 11,
{
    if bits == 1 {
        assert(64int / 1 == 64 && 4096int % 64 == 0 && 4096int / 64 == 64 && 64int * 64 / 4096 == 1)
            by (nonlinear_arith);
    } else if bits == 2 {
        assert(64int / 2 == 32 && 4096int % 32 == 0 && 4096int / 32 == 128 && 128int * 64 / 4096 == 2)
            by (nonlinear_arith);
    } else if bits == 3 {
        assert(64int / 3 == 21 && 4096int % 21 == 1 && 4096int / 21 == 195 && 196int * 64 / 4096 == 3)
            by (nonlinear_arith);
    } else if bits == 4 {
        assert(64int / 4 == 16 && 4096int % 16 == 0 && 4096int / 16 == 256 && 256int * 64 / 4096 == 4)
            by (nonlinear_arith);
    } else if bits == 5 {
        assert(64int / 5 == 12 && 4096int % 12 == 4 && 4096int / 12 == 341 && 342int * 64 / 4096 == 5)
            by (nonlinear_arith);
    } else if bits == 6 {
        assert(64int / 6 == 10 && 4096int % 10 == 6 && 4096int / 10 == 409 && 410int * 64 / 4096 == 6)
            by (nonlinear_arith);
    } else if bits == 7 {
        assert(64int / 7 == 9 && 4096int % 9 == 1 && 4096int / 9 == 455 && 456int * 64 / 4096 == 7)
            by (nonlinear_arith);
    } else if bits == 8 {
        assert(64int / 8 == 8 && 4096int % 8 == 0 && 4096int / 8 == 512 && 512int * 64 / 4096 == 8)
            by (nonlinear_arith);
    } else if bits == 9 {
        assert(64int / 9 == 7 && 4096int % 7 == 1 && 4096int / 7 == 585 && 586int * 64 / 4096 == 9)
            by (nonlinear_arith);
    } else if bits == 10 {
        assert(64int / 10 == 6 && 4096int % 6 == 4 && 4096int / 6 == 682 && 683int * 64 / 4096 == 10)
            by (nonlinear_arith);
    } else if bits == 11 {
        assert(64int / 11 == 5 && 4096int % 5 == 1 && 4096int / 5 == 819 && 820int * 64 / 4096 == 12)
            by (nonlinear_arith);
    } else {
        assert(64int / 12 == 5 && 4096int % 5 == 1 && 4096int / 5 == 819 && 820int * 64 / 4096 == 12)
            by (nonlinear_arith);
    }
}

/// The width chosen for a palette lies between 1 and 64 bits.
pub proof fn lemma_palette_bits(entries: int, width: int)
    requires
        1 <= width <= 64,
    ensures
        width <= width_from(entries, width) <= 64,
    decreases 64 - width,
{
    if !(width >= 64 || entries <= pow2_u64(width)) {
        lemma_palette_bits(entries, width + 1);
    }
}

/// Looking a state up does not depend on which strings spell its
/// properties.
pub proof fn lemma_first_match_same(
    states: Seq<BlockState>,
    name: Seq<char>,
    a: Seq<Property>,
    b: Seq<Property>,
    from: int,
)
    requires
        same_properties(a, b),
        0 <= from,
    ensures
        first_match(states, name, a, from) == first_match(states, name, b, from),
    decreases states.len() - from,
{
    if from < states.len() {
        assert(state_matches(states[from], name, a) == state_matches(states[from], name, b));
        if !state_matches(states[from], name, a) {
            lemma_first_match_same(states, name, a, b, from + 1);
        }
    }
}

/// In a consistent table the description of a block state resolves to the
/// state.
pub proof fn lemma_describe_then_resolve(table: BlockStateTable, id: u16, entry: LevelPaletteEntry)
    requires
        table.consistent(),
        crate::codec::entry_describes(table, id, entry),
    ensures
        entry_id(table, entry) == Some(id),
{
    let k = table.spec_describe(id)->Some_0;
    lemma_first_with_id(table.states@, id, 0);
    let state = table.states@[k];
    assert(same_properties(state.properties@, entry_properties(entry)));
    lemma_first_match_same(
        table.states@,
        entry.name@,
        state.properties@,
        entry_properties(entry),
        0,
    );
}

/// The stored form of a section whose width survives can be read, and
/// what is read holds the blocks and the light levels of the section.
pub proof fn lemma_section_round_trip(
    section: ChunkSection,
    stored: LevelSection,
    y: int,
    table: BlockStateTable,
)
    requires
        section.wf(),
        table.consistent(),
        0 <= y < SECTION_COUNT,
        is_encoded(stored, y, section, table),
        width_survives(palette_bits(distinct(section.blocks(), SECTION_VOLUME as int).len() as int)),
    ensures
        section_fault(stored, table) is None,
        forall|content: crate::chunk::SectionContent| #[trigger]
            is_decoded(stored, table, content) ==> content.blocks() == section.blocks()
                && content.block_light == section.block_light() && content.sky_light
                == section.sky_light(),
{
    let ids = distinct(section.blocks(), SECTION_VOLUME as int);
    let bits = palette_bits(ids.len() as int);
    section.lemma_wf();
    lemma_palette_bits(ids.len() as int, 1);
    lemma_per_word_bounds(bits);
    assert forall|i: int| 0 <= i < stored.palette@.len() implies entry_id(
        table,
        #[trigger] stored.palette@[i],
    ) == Some(ids[i]) by {
        lemma_describe_then_resolve(table, ids[i], stored.palette@[i]);
    }
    assert(palette_resolves(table, stored.palette@));
    assert(resolves_to(table, stored.palette@, ids));
    let per_word = 64int / bits;
    assert(words_needed(SECTION_VOLUME as int, bits) > 0) by {
        assert(4096int / per_word > 0) by (nonlinear_arith)
            requires
                1 <= per_word <= 64,
        ;
    }
    assert(raw_geometry_ok(stored.states@.len() as int, SECTION_VOLUME as int));
    let indices = decoded_indices(stored.states@);
    assert(indices == unpack_all(words_from_signed(stored.states@), SECTION_VOLUME as int, bits));
    assert(indices_within(indices, stored.palette@.len() as int));
    lemma_light_round_trip(section.block_light_words());
    lemma_light_round_trip(section.sky_light_words());
    assert(decoded_light(stored.block_light@) == section.block_light());
    assert(decoded_light(stored.sky_light@) == section.sky_light());
    assert forall|content: crate::chunk::SectionContent| #[trigger]
        is_decoded(stored, table, content) implies content.blocks() == section.blocks()
        && content.block_light == section.block_light() && content.sky_light
        == section.sky_light() by {
        assert(content.palette =~= ids) by {
            assert forall|i: int| 0 <= i < ids.len() implies content.palette[i] == ids[i] by {
                assert(entry_id(table, stored.palette@[i]) == Some(ids[i]));
                assert(entry_id(table, stored.palette@[i]) == Some(content.palette[i]));
            }
        }
        assert(content.blocks() =~= section.blocks());
    }
}

/// Whether the palette indices of every populated section of `chunk` are
/// stored at a width that survives.
pub open spec fn widths_survive(chunk: Chunk) -> bool {
    forall|y: int|
        0 <= y < SECTION_COUNT ==> ((#[trigger] chunk.sections()[y]) matches Some(section)
            ==> width_survives(
            palette_bits(distinct(section.blocks(), SECTION_VOLUME as int).len() as int),
        ))
}

proof fn lemma_no_fault(
    stored: Seq<LevelSection>,
    chunk: Chunk,
    table: BlockStateTable,
    from: int,
)
    requires
        chunk.wf(),
        table.consistent(),
        widths_survive(chunk),
        sections_encoded(stored, chunk.sections(), table, SECTION_COUNT as int),
        0 <= from <= stored.len(),
    ensures
        first_fault(stored, table, from) is None,
    decreases stored.len() - from,
{
    if from < stored.len() {
        let heights = populated(chunk.sections(), SECTION_COUNT as int);
        lemma_populated_heights(chunk.sections(), SECTION_COUNT as int);
        let y = heights[from];
        assert(chunk.sections()[y] is Some);
        let section = chunk.sections()[y]->Some_0;
        assert(is_encoded(stored[from], y, section, table));
        lemma_section_round_trip(section, stored[from], y, table);
        lemma_no_fault(stored, chunk, table, from + 1);
    }
}

proof fn lemma_all_valid(biomes: Seq<i32>, valid: Seq<i32>, from: int)
    requires
        forall|i: int| 0 <= i < biomes.len() ==> valid.contains(#[trigger] biomes[i]),
        0 <= from,
    ensures
        first_invalid(biomes, valid, from) is None,
    decreases biomes.len() - from,
{
    if from < biomes.len() {
        lemma_all_valid(biomes, valid, from + 1);
    }
}

/// The populated heights are listed once each, in ascending order.
pub proof fn lemma_populated_heights(sections: Seq<Option<ChunkSection>>, upto: int)
    requires
        0 <= upto <= sections.len(),
    ensures
        forall|k: int|
            0 <= k < populated(sections, upto).len() ==> 0 <= (#[trigger] populated(sections, upto)[k])
                < upto && sections[populated(sections, upto)[k]] is Some,
        forall|j: int, k: int|
            0 <= j < k < populated(sections, upto).len() ==> (#[trigger] populated(sections, upto)[j])
                < (#[trigger] populated(sections, upto)[k]),
        forall|y: int|
            0 <= y < upto && (#[trigger] sections[y]) is Some ==> exists|k: int|
                0 <= k < populated(sections, upto).len() && #[trigger] populated(sections, upto)[k] == y,
    decreases upto,
{
    if upto > 0 {
        lemma_populated_heights(sections, upto - 1);
        let before = populated(sections, upto - 1);
        let now = populated(sections, upto);
        if sections[upto - 1] is Some {
            assert(now[before.len() as int] == upto - 1);
            assert forall|k: int| 0 <= k < now.len() implies 0 <= (#[trigger] now[k]) < upto
                && sections[now[k]] is Some by {
                if k < before.len() {
                    assert(now[k] == before[k]);
                }
            }
            assert forall|j: int, k: int| 0 <= j < k < now.len() implies (#[trigger] now[j]) < (
            #[trigger] now[k]) by {
                assert(now[j] == before[j]);
                if k < before.len() {
                    assert(now[k] == before[k]);
                }
            }
            assert forall|y: int| 0 <= y < upto && (#[trigger] sections[y]) is Some implies exists|
                k: int,
            |
                0 <= k < now.len() && #[trigger] now[k] == y by {
                if y < upto - 1 {
                    let k = choose|k: int| 0 <= k < before.len() && #[trigger] before[k] == y;
                    assert(now[k] == y);
                } else {
                    assert(now[before.len() as int] == y);
                }
            }
        }
    }
}

/// Among stored sections with ascending heights, the last one that names
/// a height is the only one that names it.
proof fn lemma_last_at_height(stored: Seq<LevelSection>, y: int, upto: int)
    requires
        0 <= upto <= stored.len(),
        forall|j: int, k: int|
            0 <= j < k < stored.len() ==> (#[trigger] stored[j]).y < (#[trigger] stored[k]).y,
    ensures
        match last_at_height(stored, y, upto) {
            Some(k) => 0 <= k < upto && stored[k].y == y,
            None => forall|k: int| 0 <= k < upto ==> (#[trigger] stored[k]).y != y,
        },
    decreases upto,
{
    if upto > 0 && stored[upto - 1].y != y {
        lemma_last_at_height(stored, y, upto - 1);
    }
}

/// The record of a chunk can be read: no check of the reader fails on it,
/// and it holds the entity records that it was built with. This is so
/// where the table of block states is consistent, the biome ids of the
/// chunk name biomes and the palette indices of each section are stored
/// at a width that survives.
pub proof fn law_record_can_be_read<E>(
    chunk: Chunk,
    entities: Seq<E>,
    root: ChunkRoot<E>,
    blocks: BlockStateTable,
    biomes: BiomeTable,
)
    requires
        chunk.wf(),
        blocks.consistent(),
        widths_survive(chunk),
        forall|i: int| 0 <= i < COLUMN_COUNT ==> biomes.ids@.contains(#[trigger] chunk.biomes()[i]),
        is_record(root, chunk, entities, blocks),
    ensures
        record_fault(root, blocks, biomes) is None,
        root.level.entities@ == entities,
{
    lemma_no_fault(root.level.sections@, chunk, blocks, 0);
    lemma_all_valid(root.level.biomes@, biomes.ids@, 0);
}

/// Record round trip: a chunk that is read from its own record holds, at
/// every height, the blocks and the light levels that it held, is
/// populated at the same heights and has the same biomes. The record can
/// be read where the table of block states is consistent, the biome ids of
/// the chunk name biomes and the palette indices of each section are
/// stored at a width that survives.
pub proof fn law_record_round_trip<E>(
    chunk: Chunk,
    entities: Seq<E>,
    root: ChunkRoot<E>,
    loaded: Chunk,
    blocks: BlockStateTable,
    biomes: BiomeTable,
    y: int,
)
    requires
        chunk.wf(),
        blocks.consistent(),
        widths_survive(chunk),
        forall|i: int| 0 <= i < COLUMN_COUNT ==> biomes.ids@.contains(#[trigger] chunk.biomes()[i]),
        is_record(root, chunk, entities, blocks),
        is_loaded(loaded, chunk.spec_position(), root, blocks),
        0 <= y < SECTION_COUNT,
    ensures
        record_fault(root, blocks, biomes) is None,
        loaded.biomes() == chunk.biomes(),
        loaded.content_at(y) is None <==> chunk.content_at(y) is None,
        chunk.content_at(y) matches Some(held) ==> (loaded.content_at(y) matches Some(read)
            && read.blocks() == held.blocks() && read.block_light == held.block_light
            && read.sky_light == held.sky_light),
{
    let stored = root.level.sections@;
    let heights = populated(chunk.sections(), SECTION_COUNT as int);
    law_record_can_be_read(chunk, entities, root, blocks, biomes);
    lemma_populated_heights(chunk.sections(), SECTION_COUNT as int);
    assert forall|j: int, k: int| 0 <= j < k < stored.len() implies (#[trigger] stored[j]).y < (
    #[trigger] stored[k]).y by {
        assert(is_encoded(stored[j], heights[j], chunk.sections()[heights[j]]->Some_0, blocks));
        assert(is_encoded(stored[k], heights[k], chunk.sections()[heights[k]]->Some_0, blocks));
        assert(heights[j] < heights[k]);
    }
    lemma_last_at_height(stored, y, stored.len() as int);
    match chunk.sections()[y] {
        Some(section) => {
            let k = choose|k: int| 0 <= k < heights.len() && #[trigger] heights[k] == y;
            assert(is_encoded(stored[k], y, section, blocks));
            assert(stored[k].y == y);
            let last = last_at_height(stored, y, stored.len() as int);
            assert(last is Some);
            let l = last->Some_0;
            assert(l == k) by {
                if l < k {
                    assert(stored[l].y < stored[k].y);
                } else if k < l {
                    assert(stored[k].y < stored[l].y);
                }
            }
            lemma_section_round_trip(section, stored[k], y, blocks);
            let read = loaded.content_at(y)->Some_0;
            assert(is_decoded(stored[k], blocks, read));
        },
        None => {
            let last = last_at_height(stored, y, stored.len() as int);
            if last is Some {
                let l = last->Some_0;
                assert(is_encoded(stored[l], heights[l], chunk.sections()[heights[l]]->Some_0, blocks));
                assert(chunk.sections()[heights[l]] is Some);
                assert(false);
            }
        },
    }
}

} // verus!
