//! The state of an open region file and the decisions of loading and
//! saving a chunk.
//!
//! A `RegionHandle` holds the header and the sector allocator of one region
//! file. It never touches the file: each operation says which bytes the
//! caller has to read or write, and takes what was read.
//!
//! Loading a chunk: `locate_chunk` gives the byte offset of the record;
//! there the caller reads a big-endian length, which `check_chunk_length`
//! judges, and that many bytes, which `decode_payload` inflates.
//!
//! Saving a chunk: `encode_payload` frames the record; `begin_save` frees
//! the chunk's former sectors and allocates new ones; the caller writes the
//! length, the framed record and the padding at the offset given;
//! `finish_save` enters the new location in the header and returns the
//! header bytes, which the caller writes at the start of the file.

use crate::error::Error;
use crate::header::{
    be_word, slot_index, word_location, ChunkPosition, RegionHeader, HEADER_BYTES,
};
use crate::sector::{
    block_in_use, block_within, blocks_disjoint, initial_occupancy, is_first_fit,
    law_allocation_avoids_used, law_free_keeps_others, locations_within, with_block, ChunkLocation,
    SectorAllocator, SectorBlock, SECTOR_BYTES,
};
use vstd::prelude::*;

verus! {

/// The longest chunk record that is read, in bytes.
pub const MAX_CHUNK_BYTES: u32 = 1_048_576;

/// The first sector number that a header cannot name: a header word has
/// 24 bits for a chunk's offset.
pub const MAX_CHUNK_OFFSET: u32 = 0x100_0000;

/// The most sectors a region file can have: the last chunk starts below
/// `MAX_CHUNK_OFFSET` and takes at most 255 sectors.
pub const MAX_REGION_SECTORS: u32 = 0x100_00fe;

/// The most sectors a chunk can take: a header word has 8 bits for it.
pub const MAX_CHUNK_SECTORS: usize = 255;

/// What `check_chunk_length` returns.
pub open spec fn chunk_length_outcome(len: u32) -> Result<usize, Error> {
    if len > MAX_CHUNK_BYTES {
        Err(Error::ChunkTooLarge(len as usize))
    } else if len == 0 {
        Err(Error::ChunkTooLarge(0))
    } else {
        Ok(len as usize)
    }
}

/// Judges the length prefix of a chunk record: a record of no bytes or of
/// more than 1,048,576 is refused as too large.
pub fn check_chunk_length(len: u32) -> (r: Result<usize, Error>)
    ensures
        r == chunk_length_outcome(len),
{
    // Avoid DoS attacks
    if len > MAX_CHUNK_BYTES {
        return Err(Error::ChunkTooLarge(len as usize));
    }
    if len == 0 {
        return Err(Error::ChunkTooLarge(0));
    }
    Ok(len as usize)
}

/// The number of sectors that `total_len` bytes take.
pub open spec fn sectors_for(total_len: int) -> int {
    (total_len + 4095) / 4096
}

/// The number of zero bytes that fill the last sector after `total_len`
/// bytes: none where the bytes end on a sector boundary.
pub open spec fn padding_for(total_len: int) -> int {
    sectors_for(total_len) * 4096 - total_len
}

/// Where and how to write a chunk record.
#[derive(Clone, Copy, Debug, PartialEq, Eq, Structural)]
pub struct SavePlan {
    /// The sectors that the record was given.
    pub block: SectorBlock,
    /// The offset of the record from the start of the file, in bytes.
    pub byte_offset: u64,
    /// The length to write in front of the record, big-endian.
    pub length_prefix: u32,
    /// The number of zero bytes to write after the record.
    pub padding: usize,
}

/// The decisions taken for a region file: its header and which of its
/// sectors are in use.
pub struct RegionHandle {
    /// The region file's header, pre-loaded into memory.
    header: RegionHeader,
    /// Sector allocator to allocate sectors where we can store chunks.
    allocator: SectorAllocator,
}

impl RegionHandle {
    /// The location of each chunk, by slot.
    pub closed spec fn locations(&self) -> Seq<ChunkLocation> {
        self.header.locations@
    }

    /// The timestamp of each chunk, by slot.
    pub closed spec fn timestamps(&self) -> Seq<u32> {
        self.header.timestamps@
    }

    /// Which sectors of the file are in use.
    pub closed spec fn occupancy(&self) -> Seq<bool> {
        self.allocator@
    }

    /// A handle has a full header whose locations can be written without
    /// loss, tracks no more sectors than a header can name, and tracks
    /// every sector of every stored chunk.
    pub open spec fn wf(&self) -> bool {
        &&& self.locations().len() == 1024
        &&& self.timestamps().len() == 1024
        &&& self.occupancy().len() <= MAX_REGION_SECTORS
        &&& locations_within(self.locations(), self.occupancy().len() as int)
        &&& forall|i: int| 0 <= i < 1024 ==> crate::header::location_fits(#[trigger] self.locations()[i])
    }

    /// The handle of a region file that is being created: no chunk is
    /// stored and only the two header sectors are in use.
    pub fn create() -> (r: Self)
        ensures
            r.wf(),
            forall|i: int| 0 <= i < 1024 ==> !(#[trigger] r.locations()[i]).spec_is_present(),
            forall|i: int| 0 <= i < 1024 ==> #[trigger] r.timestamps()[i] == 0,
            r.occupancy() == seq![true, true],
    {
        let header = RegionHeader::default();
        proof {
            lemma_absent_occupancy(header.locations@, 2);
        }
        let allocator = SectorAllocator::new(&header, 2);
        proof {
            assert(allocator@ =~= seq![true, true]);
        }
        RegionHandle { header, allocator }
    }

    /// The number of sectors to track for a file of `file_len` bytes.
    pub open spec fn tracked_sectors(file_len: u64) -> int {
        if file_len / 4096 > MAX_REGION_SECTORS {
            MAX_REGION_SECTORS as int
        } else {
            (file_len / 4096) as int
        }
    }

    /// Opens the handle of an existing region file from the start of the
    /// file and its length in bytes. Fails where the file is shorter than a
    /// header.
    pub fn open(header_bytes: &[u8], file_len: u64) -> (r: Result<Self, Error>)
        ensures
            header_bytes@.len() < HEADER_BYTES <==> r is Err,
            r is Err ==> r->Err_0 == Error::HeaderTooSmall,
            r matches Ok(handle) ==> {
                &&& handle.wf()
                &&& forall|i: int|
                    0 <= i < 1024 ==> #[trigger] handle.locations()[i] == word_location(
                        be_word(header_bytes@, 4 * i),
                    )
                &&& forall|i: int|
                    0 <= i < 1024 ==> #[trigger] handle.timestamps()[i] == be_word(
                        header_bytes@,
                        4096 + 4 * i,
                    )
                &&& handle.occupancy() == initial_occupancy(
                    handle.locations(),
                    Self::tracked_sectors(file_len),
                )
            },
    {
        let header = match RegionHeader::from_bytes(header_bytes) {
            Ok(header) => header,
            Err(e) => {
                return Err(e);
            },
        };
        let sectors = file_len / (SECTOR_BYTES as u64);
        let num_sectors: u32 = if sectors > MAX_REGION_SECTORS as u64 {
            MAX_REGION_SECTORS
        } else {
            sectors as u32
        };
        proof {
            assert forall|i: int|
                0 <= i < 1024 && (#[trigger] header.locations@[i]).spec_is_present() implies block_within(
                header.locations@[i].0,
                MAX_REGION_SECTORS as int,
            ) by {
                crate::header::lemma_word_location(be_word(header_bytes@, 4 * i));
            }
        }
        let allocator = SectorAllocator::new(&header, num_sectors);
        proof {
            lemma_occupancy_bound(
                header.locations@,
                num_sectors as int,
                MAX_REGION_SECTORS as int,
            );
            assert forall|i: int| 0 <= i < 1024 implies crate::header::location_fits(
                #[trigger] header.locations@[i],
            ) by {
                crate::header::lemma_word_location(be_word(header_bytes@, 4 * i));
            }
        }
        Ok(RegionHandle { header, allocator })
    }

    /// The number of sectors that the handle tracks.
    pub fn sector_count(&self) -> (r: usize)
        ensures
            r == self.occupancy().len(),
    {
        self.allocator.sector_count()
    }

    /// The bytes of the header, as they stand at the start of the file.
    pub fn header_bytes(&self) -> (r: Vec<u8>)
        requires
            self.wf(),
        ensures
            r@ == crate::header::be_bytes(
                crate::header::header_words(self.locations(), self.timestamps()),
            ),
            r@.len() == HEADER_BYTES,
    {
        self.header.to_bytes()
    }

    /// The location of the chunk at `pos`.
    pub fn location_for_chunk(&self, pos: ChunkPosition) -> (r: ChunkLocation)
        requires
            self.wf(),
        ensures
            r == self.locations()[slot_index(pos)],
    {
        self.header.location_for_chunk(pos)
    }

    /// What `locate_chunk` returns for a chunk with the given location.
    pub open spec fn locate_outcome(location: ChunkLocation) -> Result<u64, Error> {
        if location.spec_is_present() {
            Ok((location.0.offset * 4096) as u64)
        } else {
            Err(Error::ChunkNotExist)
        }
    }

    /// Finds the record of the chunk at `pos` (global, not region-relative):
    /// its offset from the start of the file, in bytes, or `ChunkNotExist`
    /// where the chunk is not stored.
    pub fn locate_chunk(&self, pos: ChunkPosition) -> (r: Result<u64, Error>)
        requires
            self.wf(),
        ensures
            r == Self::locate_outcome(self.locations()[slot_index(pos)]),
    {
        // Get the offset of the chunk within the file
        // so that it can be read.
        let location = self.header.location_for_chunk(pos);
        // If the chunk doesn't exist, return early
        if !location.is_present() {
            return Err(Error::ChunkNotExist);
        }
        // Since the offset in the header is in "sectors" of 4KiB each, the
        // value needs to be multiplied by SECTOR_BYTES to get the offset in
        // bytes.
        let sector_bytes = SECTOR_BYTES as u64;
        assert(location.0.offset * sector_bytes <= u64::MAX) by (nonlinear_arith)
            requires
                location.0.offset <= u32::MAX,
                sector_bytes == 4096,
        ;
        Ok(location.0.offset as u64 * sector_bytes)
    }

    /// The occupancy after the former sectors of the chunk in `slot` were
    /// freed.
    pub open spec fn freed_occupancy(&self, slot: int) -> Seq<bool> {
        if self.locations()[slot].spec_is_present() {
            with_block(self.occupancy(), self.locations()[slot].0, false)
        } else {
            self.occupancy()
        }
    }

    /// Whether a record of `payload_len` bytes can be stored: it is not
    /// empty and takes, with its length prefix, at most 255 sectors.
    pub open spec fn storable(payload_len: usize) -> bool {
        1 <= payload_len && sectors_for(payload_len + 4) <= MAX_CHUNK_SECTORS
    }

    /// Whether the file has room for another record at its end: a header
    /// can name the sector behind the last one.
    pub open spec fn has_room(&self) -> bool {
        self.occupancy().len() < MAX_CHUNK_OFFSET
    }

    /// Starts saving the chunk at `pos`, whose framed record has
    /// `payload_len` bytes: frees the sectors that the chunk had and
    /// allocates, first-fit, the sectors for the new record.
    ///
    /// A record that cannot be stored is refused as `ChunkTooLarge`, and a
    /// file without room as `Io`; the handle is then as it was.
    pub fn begin_save(&mut self, pos: ChunkPosition, payload_len: usize) -> (r: Result<
        SavePlan,
        Error,
    >)
        requires
            old(self).wf(),
        ensures
            final(self).wf(),
            final(self).locations() == old(self).locations(),
            final(self).timestamps() == old(self).timestamps(),
            !Self::storable(payload_len) ==> r == Err::<SavePlan, Error>(
                Error::ChunkTooLarge(payload_len),
            ),
            Self::storable(payload_len) && !old(self).has_room() ==> r
                == Err::<SavePlan, Error>(Error::Io),
            r is Err ==> final(self).occupancy() == old(self).occupancy(),
            Self::storable(payload_len) && old(self).has_room() ==> r
                is Ok,
            r matches Ok(plan) ==> {
                let freed = old(self).freed_occupancy(slot_index(pos));
                &&& plan.block.count == sectors_for(payload_len + 4)
                &&& is_first_fit(freed, plan.block.count as int, plan.block.offset as int)
                &&& final(self).occupancy() == with_block(freed, plan.block, true)
                &&& block_within(plan.block, final(self).occupancy().len() as int)
                &&& crate::header::location_fits(ChunkLocation(plan.block))
                &&& save_begun(*old(self), *final(self), pos, plan)
                &&& plan.byte_offset == plan.block.offset * 4096
                &&& plan.length_prefix == payload_len
                &&& plan.padding == padding_for(payload_len + 4)
                &&& 4 + payload_len + plan.padding == plan.block.count * 4096
            },
    {
        if payload_len == 0 || payload_len > MAX_CHUNK_SECTORS * SECTOR_BYTES - 4 {
            return Err(Error::ChunkTooLarge(payload_len));
        }
        // 4 bytes for length header
        let total_len = payload_len + 4;
        let sectors = (total_len + SECTOR_BYTES - 1) / SECTOR_BYTES;
        if self.allocator.sector_count() >= MAX_CHUNK_OFFSET as usize {
            return Err(Error::Io);
        }
        // Find position in header and deallocate it if it currently exists.
        let location = self.header.location_for_chunk(pos);
        proof {
            crate::header::lemma_slot_index(pos);
        }
        if location.is_present() {
            self.allocator.free(location.0);
        }
        let block = self.allocator.allocate(sectors as u32);
        // Padding to align to sector count
        let padding = sectors * SECTOR_BYTES - total_len;
        proof {
            lemma_first_fit_within(
                old(self).freed_occupancy(slot_index(pos)),
                sectors as int,
                block.offset as int,
            );
        }
        let sector_bytes = SECTOR_BYTES as u64;
        assert(block.offset * sector_bytes <= u64::MAX) by (nonlinear_arith)
            requires
                block.offset <= u32::MAX,
                sector_bytes == 4096,
        ;
        Ok(
            SavePlan {
                block,
                byte_offset: block.offset as u64 * sector_bytes,
                length_prefix: payload_len as u32,
                padding,
            },
        )
    }

    /// Finishes saving the chunk at `pos`: enters the sectors of `plan` as
    /// its location and returns the header bytes to write at the start of
    /// the file.
    pub fn finish_save(&mut self, pos: ChunkPosition, plan: &SavePlan) -> (r: Vec<u8>)
        requires
            old(self).wf(),
            block_within(plan.block, old(self).occupancy().len() as int),
            crate::header::location_fits(ChunkLocation(plan.block)),
        ensures
            final(self).wf(),
            final(self).locations() == old(self).locations().update(
                slot_index(pos),
                ChunkLocation(plan.block),
            ),
            final(self).timestamps() == old(self).timestamps(),
            final(self).occupancy() == old(self).occupancy(),
            save_finished(*old(self), *final(self), pos, *plan),
            r@ == crate::header::be_bytes(
                crate::header::header_words(final(self).locations(), final(self).timestamps()),
            ),
            r@.len() == HEADER_BYTES,
    {
        proof {
            crate::header::lemma_slot_index(pos);
        }
        // Update header
        self.header.set_location_for_chunk(pos, ChunkLocation(plan.block));
        self.header.to_bytes()
    }
}

/// What `begin_save` leaves of a handle, where it succeeds: the former
/// sectors of the chunk are free, the sectors of `plan` were found
/// first-fit and are in use, and the header is as it was.
pub open spec fn save_begun(
    before: RegionHandle,
    after: RegionHandle,
    pos: ChunkPosition,
    plan: SavePlan,
) -> bool {
    let freed = before.freed_occupancy(slot_index(pos));
    &&& plan.block.count >= 1
    &&& is_first_fit(freed, plan.block.count as int, plan.block.offset as int)
    &&& after.occupancy() == with_block(freed, plan.block, true)
    &&& after.locations() == before.locations()
}

/// What `finish_save` leaves of a handle: the chunk has the sectors of
/// `plan` as its location.
pub open spec fn save_finished(
    before: RegionHandle,
    after: RegionHandle,
    pos: ChunkPosition,
    plan: SavePlan,
) -> bool {
    &&& after.locations() == before.locations().update(slot_index(pos), ChunkLocation(plan.block))
    &&& after.occupancy() == before.occupancy()
}

/// Isolation: saving a chunk leaves every other stored chunk where it is.
/// Another chunk whose sectors are in use and are not shared with the
/// chunk that is saved keeps its location, its sectors stay in use, and
/// the sectors given to the new record are none of them: the bytes
/// written for the record, which fill exactly those sectors, leave the
/// bytes of the other chunk as they are.
pub proof fn law_save_leaves_other_chunks(
    before: RegionHandle,
    begun: RegionHandle,
    done: RegionHandle,
    pos: ChunkPosition,
    plan: SavePlan,
    other: int,
)
    requires
        before.wf(),
        0 <= other < 1024,
        other != slot_index(pos),
        before.locations()[other].spec_is_present(),
        block_in_use(before.occupancy(), before.locations()[other].0),
        before.locations()[slot_index(pos)].spec_is_present() ==> blocks_disjoint(
            before.locations()[slot_index(pos)].0,
            before.locations()[other].0,
        ),
        save_begun(before, begun, pos, plan),
        save_finished(begun, done, pos, plan),
    ensures
        done.locations()[other] == before.locations()[other],
        blocks_disjoint(plan.block, before.locations()[other].0),
        block_in_use(begun.occupancy(), before.locations()[other].0),
        block_in_use(done.occupancy(), before.locations()[other].0),
{
    let slot = slot_index(pos);
    crate::header::lemma_slot_index(pos);
    let kept = before.locations()[other].0;
    let freed = before.freed_occupancy(slot);
    if before.locations()[slot].spec_is_present() {
        law_free_keeps_others(before.occupancy(), before.locations()[slot].0, kept);
    }
    law_allocation_avoids_used(freed, plan.block.count, plan.block, kept);
}

/// A record lies behind the header: where the two header sectors are in
/// use once the former sectors of the chunk are free, the sectors given to
/// the new record start at sector 2 or later. They are in use unless the
/// header itself named them as the chunk's former sectors.
pub proof fn law_record_lies_behind_header(
    before: RegionHandle,
    begun: RegionHandle,
    pos: ChunkPosition,
    plan: SavePlan,
)
    requires
        save_begun(before, begun, pos, plan),
        block_in_use(before.freed_occupancy(slot_index(pos)), SectorBlock { offset: 0, count: 2 }),
    ensures
        plan.block.offset >= 2,
{
    law_allocation_avoids_used(
        before.freed_occupancy(slot_index(pos)),
        plan.block.count,
        plan.block,
        SectorBlock { offset: 0, count: 2 },
    );
}

/// A saved chunk is found where its record was written: after a save the
/// handle locates the chunk at the byte offset of the plan.
pub proof fn law_saved_chunk_is_found(
    before: RegionHandle,
    begun: RegionHandle,
    done: RegionHandle,
    pos: ChunkPosition,
    plan: SavePlan,
)
    requires
        before.wf(),
        save_begun(before, begun, pos, plan),
        save_finished(begun, done, pos, plan),
        plan.byte_offset == plan.block.offset * 4096,
    ensures
        RegionHandle::locate_outcome(done.locations()[slot_index(pos)]) == Ok::<u64, Error>(
            plan.byte_offset,
        ),
{
    crate::header::lemma_slot_index(pos);
}

/// Reopening: a handle that is opened from the header bytes of another
/// finds every chunk where the other has it.
pub proof fn law_reopened_handle_finds_chunks(handle: RegionHandle, bytes: Seq<u8>, reopened: RegionHandle)
    requires
        handle.wf(),
        bytes == crate::header::be_bytes(
            crate::header::header_words(handle.locations(), handle.timestamps()),
        ),
        reopened.locations().len() == 1024,
        forall|i: int|
            0 <= i < 1024 ==> #[trigger] reopened.locations()[i] == word_location(
                be_word(bytes, 4 * i),
            ),
    ensures
        reopened.locations() == handle.locations(),
        forall|pos: ChunkPosition| #[trigger]
            RegionHandle::locate_outcome(reopened.locations()[slot_index(pos)])
                == RegionHandle::locate_outcome(handle.locations()[slot_index(pos)]),
{
    assert forall|i: int| 0 <= i < 1024 implies reopened.locations()[i] == handle.locations()[i] by {
        crate::header::law_header_round_trip(handle.header, i);
    }
    assert(reopened.locations() =~= handle.locations());
}

/// A header without stored chunks leaves all but the two header sectors
/// free.
pub proof fn lemma_absent_occupancy(locations: Seq<ChunkLocation>, sectors: int)
    requires
        forall|i: int| 0 <= i < locations.len() ==> !(#[trigger] locations[i]).spec_is_present(),
        0 <= sectors,
    ensures
        locations_within(locations, 0),
        initial_occupancy(locations, sectors) == with_block(
            Seq::new(sectors as nat, |i: int| false),
            SectorBlock { offset: 0, count: 2 },
            true,
        ),
{
    let empty = Seq::new(sectors as nat, |i: int| false);
    lemma_no_locations(empty, locations, locations.len() as int);
}

proof fn lemma_no_locations(bits: Seq<bool>, locations: Seq<ChunkLocation>, upto: int)
    requires
        forall|i: int| 0 <= i < locations.len() ==> !(#[trigger] locations[i]).spec_is_present(),
        0 <= upto <= locations.len(),
    ensures
        crate::sector::with_locations(bits, locations, upto) == bits,
    decreases upto,
{
    if upto > 0 {
        lemma_no_locations(bits, locations, upto - 1);
    }
}

/// The occupancy of a freshly opened file reaches as far as the file or
/// its farthest stored chunk, and covers every stored chunk.
pub proof fn lemma_occupancy_bound(locations: Seq<ChunkLocation>, sectors: int, bound: int)
    requires
        0 <= sectors <= bound,
        2 <= bound,
        locations_within(locations, bound),
    ensures
        initial_occupancy(locations, sectors).len() <= bound,
        locations_within(locations, initial_occupancy(locations, sectors).len() as int),
        sectors <= initial_occupancy(locations, sectors).len(),
{
    let empty = Seq::new(sectors as nat, |i: int| false);
    lemma_locations_bound(empty, locations, locations.len() as int, bound);
}

proof fn lemma_locations_bound(
    bits: Seq<bool>,
    locations: Seq<ChunkLocation>,
    upto: int,
    bound: int,
)
    requires
        0 <= upto <= locations.len(),
        bits.len() <= bound,
        locations_within(locations, bound),
    ensures
        bits.len() <= crate::sector::with_locations(bits, locations, upto).len() <= bound,
        forall|i: int|
            0 <= i < upto && (#[trigger] locations[i]).spec_is_present() ==> block_within(
                locations[i].0,
                crate::sector::with_locations(bits, locations, upto).len() as int,
            ),
    decreases upto,
{
    if upto > 0 {
        lemma_locations_bound(bits, locations, upto - 1, bound);
    }
}

/// Where first-fit lands, the block ends within the file or right behind
/// its former end.
pub proof fn lemma_first_fit_within(bits: Seq<bool>, count: int, start: int)
    requires
        0 <= count,
        is_first_fit(bits, count, start),
    ensures
        0 <= start <= bits.len(),
        crate::sector::has_free_run(bits, count) ==> start + count <= bits.len(),
{
}

} // verus!
