//! Sectors of a region file and the allocator that hands them out.
//!
//! A region file is divided into sectors of 4096 bytes. The allocator keeps
//! one bit per sector, set while the sector is in use, and serves requests
//! first-fit: the lowest run of free sectors that is long enough wins, and a
//! request that fits nowhere is placed past the end of the file.

use crate::header::RegionHeader;
use bitvec::order::Lsb0;
use bitvec::vec::BitVec;
use vstd::prelude::*;

verus! {

/// Length, in bytes, of a sector.
pub const SECTOR_BYTES: usize = 4096;

/// A block of sectors in a region file.
#[derive(Clone, Copy, Debug, PartialEq, Eq, Structural, Hash)]
pub struct SectorBlock {
    /// Offset, in sectors, from the start of the file (beginning of the header.)
    pub offset: u32,
    /// Number of sectors in this block. Each sector is 4KiB.
    pub count: u32,
}

/// Contains information about a chunk inside a region file.
#[derive(Clone, Copy, Debug, PartialEq, Eq, Structural, Hash)]
pub struct ChunkLocation(pub SectorBlock);

impl ChunkLocation {
    /// Whether the location names a stored chunk: every location does but
    /// the one with offset 0 and count 0, which stands for a chunk that was
    /// never written.
    pub open spec fn spec_is_present(self) -> bool {
        self.0.offset != 0 || self.0.count != 0
    }

    /// Checks whether a chunk exists in a region file or not.
    #[verifier::when_used_as_spec(spec_is_present)]
    pub fn is_present(self) -> (r: bool)
        ensures
            r == self.spec_is_present(),
    {
        self.0.offset != 0 || self.0.count != 0
    }

    /// The location of a chunk that is not stored.
    pub fn absent() -> (r: Self)
        ensures
            r == ChunkLocation(SectorBlock { offset: 0, count: 0 }),
            !r.spec_is_present(),
    {
        ChunkLocation(SectorBlock { offset: 0, count: 0 })
    }
}

/// One bit per sector, held in a bit vector.
#[verifier::external_body]
pub struct SectorBits {
    bits: BitVec<usize, Lsb0>,
}

/// The bits that a bit vector holds, in index order.
pub uninterp spec fn bits_of(v: SectorBits) -> Seq<bool>;

/// The longest bit vector that can exist: an eighth of the address space.
pub open spec fn max_bits() -> int {
    usize::MAX as int / 8
}

/// `BitVec::repeat`: a vector of `len` bits that all equal `bit`. It panics
/// past the longest encodable length, which the precondition leaves out.
#[verifier::external_body]
fn bits_repeat(bit: bool, len: usize) -> (r: SectorBits)
    requires
        len <= max_bits(),
    ensures
        bits_of(r) == Seq::new(len as nat, |i: int| bit),
{
    SectorBits { bits: BitVec::repeat(bit, len) }
}

/// `BitVec::len`: the number of bits held, never more than the longest
/// encodable length.
#[verifier::external_body]
fn bits_len(v: &SectorBits) -> (r: usize)
    ensures
        r == bits_of(*v).len(),
        r <= max_bits(),
{
    v.bits.len()
}

/// Indexing of a bit slice by `usize`: the bit at `index`. It panics at an
/// index past the end, which the precondition leaves out.
#[verifier::external_body]
fn bits_get(v: &SectorBits, index: usize) -> (r: bool)
    requires
        index < bits_of(*v).len(),
    ensures
        r == bits_of(*v)[index as int],
{
    v.bits[index]
}

/// `BitSlice::set`: writes `value` at `index` and leaves every other bit. It
/// panics at an index past the end, which the precondition leaves out.
#[verifier::external_body]
fn bits_set(v: &mut SectorBits, index: usize, value: bool)
    requires
        index < bits_of(*old(v)).len(),
    ensures
        bits_of(*final(v)) == bits_of(*old(v)).update(index as int, value),
{
    v.bits.set(index, value);
}

/// `Extend<bool>` of a bit vector, fed `count` times `value`: the bits so far
/// followed by `count` bits that equal `value`. It panics where the result
/// would pass the longest encodable length, which the precondition leaves
/// out.
#[verifier::external_body]
fn bits_extend(v: &mut SectorBits, count: usize, value: bool)
    requires
        bits_of(*old(v)).len() + count <= max_bits(),
    ensures
        bits_of(*final(v)) == bits_of(*old(v)) + Seq::new(count as nat, |i: int| value),
{
    v.bits.extend(std::iter::repeat(value).take(count));
}

/// The most sectors an allocator can track: sector numbers are 32 bits wide
/// and the bit vector has a longest length of its own.
pub open spec fn sector_limit() -> int {
    if max_bits() < u32::MAX as int {
        max_bits()
    } else {
        u32::MAX as int
    }
}

/// An allocator can track at least the sectors that a region file can
/// have.
pub proof fn lemma_limit()
    ensures
        0x1fff_ffff <= sector_limit(),
{
}

/// Whether the sectors `[start, start + count)` all lie inside `bits` and
/// are free.
pub open spec fn run_is_free(bits: Seq<bool>, start: int, count: int) -> bool {
    &&& 0 <= start
    &&& start + count <= bits.len()
    &&& forall|i: int| start <= i < start + count ==> !#[trigger] bits[i]
}

/// Whether some run of `count` free sectors exists in `bits`.
pub open spec fn has_free_run(bits: Seq<bool>, count: int) -> bool {
    exists|start: int| #[trigger] run_is_free(bits, start, count)
}

/// Whether `start` is where a first-fit search for `count` sectors lands:
/// the lowest start of a free run of that length, or the end of the file
/// where no such run exists.
pub open spec fn is_first_fit(bits: Seq<bool>, count: int, start: int) -> bool {
    if has_free_run(bits, count) {
        &&& run_is_free(bits, start, count)
        &&& forall|lower: int| 0 <= lower < start ==> !#[trigger] run_is_free(bits, lower, count)
    } else {
        start == bits.len()
    }
}

/// The occupancy after the sectors of `block` were given `value`: the
/// vector grows where the block reaches past its end and every sector
/// outside the block stays as it was. A block without sectors changes
/// nothing.
pub open spec fn with_block(bits: Seq<bool>, block: SectorBlock, value: bool) -> Seq<bool> {
    let end = block.offset + block.count;
    let len = if block.count > 0 && end > bits.len() {
        end as nat
    } else {
        bits.len()
    };
    Seq::new(
        len,
        |i: int|
            if block.offset <= i < end {
                value
            } else if i < bits.len() {
                bits[i]
            } else {
                false
            },
    )
}

/// Whether every sector of `block` lies inside a file of `sectors`
/// sectors.
pub open spec fn block_within(block: SectorBlock, sectors: int) -> bool {
    block.count == 0 || block.offset + block.count <= sectors
}

/// The occupancy after every chunk of `locations[..upto]` that is present
/// was marked used, starting from `bits`.
pub open spec fn with_locations(bits: Seq<bool>, locations: Seq<ChunkLocation>, upto: int) -> Seq<
    bool,
>
    decreases upto,
{
    if upto <= 0 {
        bits
    } else {
        let before = with_locations(bits, locations, upto - 1);
        if locations[upto - 1].spec_is_present() {
            with_block(before, locations[upto - 1].0, true)
        } else {
            before
        }
    }
}

/// Whether every chunk of `locations` that is present lies inside a file
/// of `sectors` sectors.
pub open spec fn locations_within(locations: Seq<ChunkLocation>, sectors: int) -> bool {
    forall|i: int|
        0 <= i < locations.len() && (#[trigger] locations[i]).spec_is_present() ==> block_within(
            locations[i].0,
            sectors,
        )
}

/// The occupancy of a freshly opened file of `sectors` sectors whose header
/// holds `locations`: every stored chunk's sectors and the two header
/// sectors are used, all others are free.
pub open spec fn initial_occupancy(locations: Seq<ChunkLocation>, sectors: int) -> Seq<bool> {
    with_block(
        with_locations(Seq::new(sectors as nat, |i: int| false), locations, locations.len() as int),
        SectorBlock { offset: 0, count: 2 },
        true,
    )
}

/// Whether two blocks share no sector: one of them is empty, or one ends
/// where the other begins or before.
pub open spec fn blocks_disjoint(a: SectorBlock, b: SectorBlock) -> bool {
    a.count == 0 || b.count == 0 || a.offset + a.count <= b.offset || b.offset + b.count
        <= a.offset
}

/// Whether every sector of `block` lies inside `bits` and is in use.
pub open spec fn block_in_use(bits: Seq<bool>, block: SectorBlock) -> bool {
    &&& block.offset + block.count <= bits.len()
    &&& forall|i: int| block.offset <= i < block.offset + block.count ==> #[trigger] bits[i]
}

/// An allocator for sectors.
pub struct SectorAllocator {
    /// Vector of bits, with a bit set for each sector which is in use.
    used_sectors: SectorBits,
}

impl View for SectorAllocator {
    type V = Seq<bool>;

    /// One entry per sector of the file, `true` while the sector is in use.
    closed spec fn view(&self) -> Seq<bool> {
        bits_of(self.used_sectors)
    }
}

impl SectorAllocator {
    /// The allocator tracks no more sectors than sector numbers can name.
    pub open spec fn wf(&self) -> bool {
        self@.len() <= sector_limit()
    }

    fn mark(&mut self, block: SectorBlock, value: bool)
        requires
            block_within(block, old(self)@.len() as int),
        ensures
            final(self)@ == with_block(old(self)@, block, value),
            final(self)@.len() == old(self)@.len(),
    {
        let len = bits_len(&self.used_sectors);
        let end = block.offset as u64 + block.count as u64;
        let mut sector = block.offset as u64;
        while sector < end
            invariant
                block.offset <= sector <= end,
                end == block.offset + block.count,
                block.count > 0 ==> end <= len,
                len == old(self)@.len(),
                self@.len() == old(self)@.len(),
                forall|i: int|
                    0 <= i < self@.len() ==> #[trigger] self@[i] == if block.offset <= i < sector {
                        value
                    } else {
                        old(self)@[i]
                    },
            decreases end - sector,
        {
            bits_set(&mut self.used_sectors, sector as usize, value);
            sector = sector + 1;
        }
        proof {
            assert(self@ =~= with_block(old(self)@, block, value));
        }
    }

    /// Marks the sectors of `block` used, growing the vector where the
    /// block reaches past its end.
    fn occupy(&mut self, block: SectorBlock)
        requires
            old(self).wf(),
            block_within(block, sector_limit()),
        ensures
            final(self).wf(),
            final(self)@ == with_block(old(self)@, block, true),
    {
        let len = bits_len(&self.used_sectors);
        let end = block.offset as u64 + block.count as u64;
        if block.count > 0 && end > len as u64 {
            bits_extend(&mut self.used_sectors, (end - len as u64) as usize, false);
        }
        self.mark(block, true);
        proof {
            assert(self@ =~= with_block(old(self)@, block, true));
        }
    }

    /// Whether `new` can be called on these locations and file size: the
    /// file and every stored chunk end within what an allocator can track.
    pub open spec fn spec_accepts(locations: Seq<ChunkLocation>, file_size: u32) -> bool {
        &&& file_size <= sector_limit()
        &&& locations_within(locations, sector_limit())
    }

    /// Tests whether `new` can be called on these locations and file size.
    pub fn accepts(header: &RegionHeader, file_size: u32) -> (r: bool)
        ensures
            r == Self::spec_accepts(header.locations@, file_size),
    {
        let limit = Self::limit();
        if file_size as u64 > limit {
            return false;
        }
        let mut i: usize = 0;
        while i < header.locations.len()
            invariant
                i <= header.locations@.len(),
                limit == sector_limit(),
                forall|j: int|
                    0 <= j < i && (#[trigger] header.locations@[j]).spec_is_present()
                        ==> block_within(header.locations@[j].0, sector_limit()),
            decreases header.locations@.len() - i,
        {
            let location = header.locations[i];
            if location.0.count > 0 && location.0.offset as u64 + location.0.count as u64 > limit {
                return false;
            }
            i = i + 1;
        }
        true
    }

    fn limit() -> (r: u64)
        ensures
            r == sector_limit(),
    {
        if ((usize::MAX / 8) as u64) < u32::MAX as u64 {
            (usize::MAX / 8) as u64
        } else {
            u32::MAX as u64
        }
    }

    /// Creates a `SectorAllocator` from the given file header
    /// and total file size __in sectors.__
    pub fn new(header: &RegionHeader, file_size: u32) -> (r: Self)
        requires
            Self::spec_accepts(header.locations@, file_size),
        ensures
            r.wf(),
            r@ == initial_occupancy(header.locations@, file_size as int),
    {
        let mut this = SectorAllocator { used_sectors: bits_repeat(false, file_size as usize) };
        let ghost empty = Seq::new(file_size as nat, |i: int| false);
        proof {
            assert(this@ =~= empty);
        }
        // Detect used sectors
        let mut i: usize = 0;
        while i < header.locations.len()
            invariant
                i <= header.locations@.len(),
                locations_within(header.locations@, sector_limit()),
                this.wf(),
                this@ == with_locations(empty, header.locations@, i as int),
            decreases header.locations@.len() - i,
        {
            let location = header.locations[i];
            if location.is_present() {
                this.occupy(location.0);
            }
            i = i + 1;
        }
        // Allocate two sectors at start for header
        proof {
            lemma_limit();
        }
        this.occupy(SectorBlock { offset: 0, count: 2 });
        this
    }

    /// Frees the given block from this allocator.
    pub fn free(&mut self, block: SectorBlock)
        requires
            block_within(block, old(self)@.len() as int),
        ensures
            final(self)@ == with_block(old(self)@, block, false),
            final(self)@.len() == old(self)@.len(),
    {
        self.mark(block, false);
    }

    /// The number of sectors that this allocator tracks.
    pub fn sector_count(&self) -> (r: usize)
        ensures
            r == self@.len(),
    {
        bits_len(&self.used_sectors)
    }

    /// Whether the sector at `index` is in use.
    pub fn is_used(&self, index: usize) -> (r: bool)
        ensures
            r == (index < self@.len() && self@[index as int]),
    {
        index < bits_len(&self.used_sectors) && bits_get(&self.used_sectors, index)
    }

    /// Whether `allocate(min_size)` can be called: the file stays within
    /// what an allocator can track even where the block is placed at its end.
    pub open spec fn spec_can_allocate(&self, min_size: u32) -> bool {
        self@.len() + min_size <= sector_limit()
    }

    /// Tests whether `allocate(min_size)` can be called.
    pub fn can_allocate(&self, min_size: u32) -> (r: bool)
        ensures
            r == self.spec_can_allocate(min_size),
    {
        let len = bits_len(&self.used_sectors) as u64;
        let limit = Self::limit();
        len <= limit && min_size as u64 <= limit - len
    }

    /// Allocates a block of sectors with the given size __in sectors__:
    /// the lowest free run of that length, or new sectors at the end of the
    /// file where there is none.
    pub fn allocate(&mut self, min_size: u32) -> (block: SectorBlock)
        requires
            old(self).spec_can_allocate(min_size),
        ensures
            block.count == min_size,
            is_first_fit(old(self)@, min_size as int, block.offset as int),
            final(self)@ == with_block(old(self)@, block, true),
            final(self).wf(),
    {
        let len = bits_len(&self.used_sectors);
        let mut start: usize = 0;
        let mut length: u32 = 0;
        let mut index: usize = 0;
        if min_size == 0 {
            let block = SectorBlock { offset: 0, count: 0 };
            proof {
                assert(run_is_free(self@, 0, 0));
                assert(self@ =~= with_block(old(self)@, block, true));
            }
            return block;
        }
        while index < len
            invariant
                min_size >= 1,
                len == self@.len(),
                self@ == old(self)@,
                len + min_size <= sector_limit(),
                index <= len,
                length < min_size,
                start + length == index,
                forall|i: int| start <= i < index ==> !#[trigger] self@[i],
                forall|lower: int|
                    0 <= lower < start ==> !#[trigger] run_is_free(self@, lower, min_size as int),
            decreases len - index,
        {
            if bits_get(&self.used_sectors, index) {
                proof {
                    assert forall|lower: int| 0 <= lower < index + 1 implies !#[trigger] run_is_free(
                        self@,
                        lower,
                        min_size as int,
                    ) by {
                        if lower >= start {
                            if run_is_free(self@, lower, min_size as int) {
                                assert(!self@[index as int]);
                            }
                        }
                    }
                }
                start = index + 1;
                length = 0;
            } else {
                length = length + 1;
                if length >= min_size {
                    let block = SectorBlock { offset: start as u32, count: length };
                    proof {
                        assert(run_is_free(self@, start as int, min_size as int));
                    }
                    self.mark(block, true);
                    return block;
                }
            }
            index = index + 1;
        }
        // No sector found: must allocate into end
        let block = SectorBlock { offset: len as u32, count: min_size };
        proof {
            assert forall|s: int| !#[trigger] run_is_free(self@, s, min_size as int) by {
                if run_is_free(self@, s, min_size as int) {
                    if s >= start {
                        assert(s + min_size <= len);
                        assert(false);
                    }
                }
            }
        }
        bits_extend(&mut self.used_sectors, min_size as usize, true);
        proof {
            assert(self@ =~= with_block(old(self)@, block, true));
        }
        block
    }
}

/// Isolation of allocations: a block that first-fit hands out lies on
/// sectors that were free, so it shares no sector with a block whose
/// sectors were in use, and those sectors stay in use.
pub proof fn law_allocation_avoids_used(
    bits: Seq<bool>,
    count: u32,
    block: SectorBlock,
    other: SectorBlock,
)
    requires
        count >= 1,
        block.count == count,
        is_first_fit(bits, count as int, block.offset as int),
        block_in_use(bits, other),
    ensures
        blocks_disjoint(block, other),
        block_in_use(with_block(bits, block, true), other),
{
    if has_free_run(bits, count as int) {
        if !blocks_disjoint(block, other) {
            let shared = if block.offset >= other.offset {
                block.offset as int
            } else {
                other.offset as int
            };
            assert(bits[shared]);
            assert(!bits[shared]);
        }
    }
}

/// Freeing a block leaves every block that shares no sector with it in use.
pub proof fn law_free_keeps_others(bits: Seq<bool>, freed: SectorBlock, other: SectorBlock)
    requires
        block_within(freed, bits.len() as int),
        blocks_disjoint(freed, other),
        block_in_use(bits, other),
    ensures
        block_in_use(with_block(bits, freed, false), other),
{
}

} // verus!
