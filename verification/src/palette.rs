//! Palette compaction: from the block states of a volume to the shortest
//! palette and the indices into it.
//!
//! The palette lists each block state of the volume once, in the order in
//! which the states first occur. The indices are stored at the smallest
//! width that can hold every index of the palette.

use crate::packed_array::{mask_of, packed_words, words_needed, PackedArray};
use vstd::prelude::*;

verus! {

/// The smallest width, from `width` upwards, at which `entries` palette
/// indices can be told apart.
pub open spec fn width_from(entries: int, width: int) -> int
    decreases 64 - width,
{
    if width >= 64 || entries <= pow2_u64(width) {
        width
    } else {
        width_from(entries, width + 1)
    }
}

/// Two to the power `width`, for a width below 64.
pub open spec fn pow2_u64(width: int) -> int {
    (1u64 << (width as u64)) as int
}

/// The smallest number of bits per value, at least 1, that fits a palette
/// of `entries` entries.
pub open spec fn palette_bits(entries: int) -> int {
    width_from(entries, 1)
}

/// The distinct values among the first `upto` of `blocks`, in the order of
/// their first occurrence.
pub open spec fn distinct(blocks: Seq<u16>, upto: int) -> Seq<u16>
    decreases upto,
{
    if upto <= 0 {
        Seq::empty()
    } else {
        let before = distinct(blocks, upto - 1);
        if before.contains(blocks[upto - 1]) {
            before
        } else {
            before.push(blocks[upto - 1])
        }
    }
}

/// Whether `indices` spell `blocks` through `palette`.
pub open spec fn spells(palette: Seq<u16>, indices: Seq<u64>, blocks: Seq<u16>) -> bool {
    &&& indices.len() == blocks.len()
    &&& forall|i: int|
        0 <= i < blocks.len() ==> (#[trigger] indices[i]) < palette.len() && palette[indices[i] as int]
            == blocks[i]
}

/// The distinct values hold no value twice, hold every value seen, and
/// every one of them was seen.
pub proof fn lemma_distinct(blocks: Seq<u16>, upto: int)
    requires
        0 <= upto <= blocks.len(),
    ensures
        distinct(blocks, upto).no_duplicates(),
        distinct(blocks, upto).len() <= upto,
        forall|i: int| 0 <= i < upto ==> distinct(blocks, upto).contains(#[trigger] blocks[i]),
        forall|k: int|
            0 <= k < distinct(blocks, upto).len() ==> exists|i: int|
                0 <= i < upto && blocks[i] == #[trigger] distinct(blocks, upto)[k],
    decreases upto,
{
    if upto > 0 {
        lemma_distinct(blocks, upto - 1);
        let before = distinct(blocks, upto - 1);
        let value = blocks[upto - 1];
        let now = distinct(blocks, upto);
        if before.contains(value) {
            assert forall|i: int| 0 <= i < upto implies now.contains(#[trigger] blocks[i]) by {}
        } else {
            assert(now[before.len() as int] == value);
            assert forall|i: int| 0 <= i < upto implies now.contains(#[trigger] blocks[i]) by {
                if i < upto - 1 {
                    let k = choose|k: int| 0 <= k < before.len() && before[k] == blocks[i];
                    assert(now[k] == blocks[i]);
                }
            }
            assert forall|k: int| 0 <= k < now.len() implies exists|i: int|
                0 <= i < upto && blocks[i] == #[trigger] now[k] by {
                if k < before.len() {
                    assert(now[k] == before[k]);
                    let i = choose|i: int| 0 <= i < upto - 1 && blocks[i] == before[k];
                    assert(0 <= i < upto && blocks[i] == now[k]);
                } else {
                    assert(blocks[upto - 1] == now[k]);
                }
            }
        }
    }
}

/// Whether `k` is the first index of `value` in `palette`.
pub open spec fn is_first_index(palette: Seq<u16>, value: u16, k: int) -> bool {
    &&& 0 <= k < palette.len()
    &&& palette[k] == value
    &&& forall|j: int| 0 <= j < k ==> palette[j] != value
}

/// Finds the first index of `value` in `palette`.
pub fn find(palette: &Vec<u16>, value: u16) -> (r: Option<usize>)
    ensures
        match r {
            Some(k) => is_first_index(palette@, value, k as int),
            None => !palette@.contains(value),
        },
{
    let mut k: usize = 0;
    while k < palette.len()
        invariant
            k <= palette@.len(),
            forall|j: int| 0 <= j < k ==> palette@[j] != value,
        decreases palette@.len() - k,
    {
        if palette[k] == value {
            return Some(k);
        }
        k = k + 1;
    }
    None
}

/// Computes the smallest number of bits per value that fits a palette of
/// `entries` entries.
pub fn bits_for_palette(entries: usize) -> (r: usize)
    ensures
        r == palette_bits(entries as int),
        1 <= r <= 64,
        entries <= mask_of(r as u64) + 1,
{
    let mut width: usize = 1;
    while width < 64 && (1u64 << (width as u64)) < entries as u64
        invariant
            1 <= width <= 64,
            palette_bits(entries as int) == width_from(entries as int, width as int),
        decreases 64 - width,
    {
        width = width + 1;
    }
    proof {
        let w = width as u64;
        if width < 64 {
            assert((1u64 << w) >= 1) by (bit_vector)
                requires
                    w < 64,
            ;
        }
    }
    width
}

/// Compacts the block states of a volume into the shortest palette and the
/// indices into it, stored at the smallest width that fits the palette.
pub fn compact_palette(blocks: &Vec<u16>) -> (r: (Vec<u16>, PackedArray))
    ensures
        r.0@ == distinct(blocks@, blocks@.len() as int),
        r.0@.no_duplicates(),
        r.1.wf(),
        r.1.spec_len() == blocks@.len(),
        r.1.spec_bits_per_value() == palette_bits(r.0@.len() as int),
        r.1.raw().len() == words_needed(
            blocks@.len() as int,
            palette_bits(r.0@.len() as int),
        ),
        r.1.raw() == packed_words(r.1@, palette_bits(r.0@.len() as int)),
        spells(r.0@, r.1@, blocks@),
{
    let mut palette: Vec<u16> = Vec::new();
    let mut indices: Vec<u64> = Vec::with_capacity(blocks.len());
    let mut i: usize = 0;
    while i < blocks.len()
        invariant
            i <= blocks@.len(),
            palette@ == distinct(blocks@, i as int),
            palette@.len() <= i,
            indices@.len() == i,
            forall|j: int|
                0 <= j < i ==> (#[trigger] indices@[j]) < palette@.len() && palette@[indices@[j] as int]
                    == blocks@[j],
        decreases blocks@.len() - i,
    {
        let value = blocks[i];
        let index = match find(&palette, value) {
            Some(k) => k,
            None => {
                palette.push(value);
                palette.len() - 1
            },
        };
        indices.push(index as u64);
        i = i + 1;
    }
    proof {
        lemma_distinct(blocks@, blocks@.len() as int);
    }
    let width = bits_for_palette(palette.len());
    proof {
        assert forall|j: int| 0 <= j < indices@.len() implies #[trigger] indices@[j] <= mask_of(
            width as u64,
        ) by {}
    }
    let data = PackedArray::from_iter(indices, width);
    (palette, data)
}

} // verus!
