//! The header of a region file: where each chunk of the region is stored
//! and when it was last written.
//!
//! On disk the header is 8192 bytes: 1024 big-endian words that give a
//! chunk's location as `(offset << 8) | count`, then 1024 big-endian
//! timestamps. The chunk at `(x, z)` has slot `(x & 31) + (z & 31) * 32`.

use crate::error::Error;
use crate::sector::{ChunkLocation, SectorBlock};
use vstd::prelude::*;

verus! {

/// The length and width of a region, in chunks.
pub const REGION_SIZE: usize = 32;

/// The number of chunk slots in a region.
pub const REGION_CHUNKS: usize = 1024;

/// The length of the header on disk, in bytes.
pub const HEADER_BYTES: usize = 8192;

/// The position of a chunk column, in chunks.
#[derive(Clone, Copy, Debug, PartialEq, Eq, Structural, Hash)]
pub struct ChunkPosition {
    pub x: i32,
    pub z: i32,
}

impl ChunkPosition {
    pub fn new(x: i32, z: i32) -> (r: Self)
        ensures
            r == (ChunkPosition { x, z }),
    {
        ChunkPosition { x, z }
    }
}

/// A region contains a 32x32 grid of chunk columns.
#[derive(Clone, Copy, Debug, PartialEq, Eq, Structural, Hash)]
pub struct RegionPosition {
    pub x: i32,
    pub z: i32,
}

impl RegionPosition {
    /// The region that holds the chunk at `chunk_coords`: each coordinate
    /// divided by 32 and rounded down.
    pub open spec fn spec_from_chunk(chunk_coords: ChunkPosition) -> RegionPosition {
        RegionPosition {
            x: (chunk_coords.x as int / 32) as i32,
            z: (chunk_coords.z as int / 32) as i32,
        }
    }

    /// Returns the coordinates of the region corresponding
    /// to the specified chunk position.
    pub fn from_chunk(chunk_coords: ChunkPosition) -> (r: Self)
        ensures
            r == Self::spec_from_chunk(chunk_coords),
            r.x * 32 <= chunk_coords.x < r.x * 32 + 32,
            r.z * 32 <= chunk_coords.z < r.z * 32 + 32,
    {
        let x = chunk_coords.x;
        let z = chunk_coords.z;
        assert(x >> 5 == x as int / 32) by (bit_vector);
        assert(z >> 5 == z as int / 32) by (bit_vector);
        RegionPosition { x: x >> 5, z: z >> 5 }
    }
}

/// The slot of the chunk at `pos` in the header of its region.
pub open spec fn slot_index(pos: ChunkPosition) -> int {
    (pos.x & 31) + (pos.z & 31) * 32
}

/// The slot of a chunk is its position within the region: the coordinates
/// taken modulo 32, the row of `z` before the column of `x`.
pub proof fn lemma_slot_index(pos: ChunkPosition)
    ensures
        0 <= slot_index(pos) < 1024,
        slot_index(pos) == (pos.x as int % 32) + (pos.z as int % 32) * 32,
{
    let x = pos.x;
    let z = pos.z;
    assert(0 <= (x & 31) < 32 && (x & 31) == x as int % 32) by (bit_vector);
    assert(0 <= (z & 31) < 32 && (z & 31) == z as int % 32) by (bit_vector);
}

/// Byte `k` of the big-endian form of `word`.
pub open spec fn be_byte(word: u32, k: int) -> u8 {
    if k == 0 {
        (word >> 24) as u8
    } else if k == 1 {
        ((word >> 16) & 0xff) as u8
    } else if k == 2 {
        ((word >> 8) & 0xff) as u8
    } else {
        (word & 0xff) as u8
    }
}

/// The word whose big-endian form is the four bytes at `at` in `bytes`.
pub open spec fn be_word(bytes: Seq<u8>, at: int) -> u32 {
    ((bytes[at] as u32) << 24) | ((bytes[at + 1] as u32) << 16) | ((bytes[at + 2] as u32) << 8) | (
    bytes[at + 3] as u32)
}

/// The big-endian form of a list of words.
pub open spec fn be_bytes(words: Seq<u32>) -> Seq<u8> {
    Seq::new(4 * words.len(), |i: int| be_byte(words[i / 4], i % 4))
}

/// The header word of a location: the offset in the upper 24 bits, the
/// sector count in the lowest 8.
pub open spec fn location_word(location: ChunkLocation) -> u32 {
    (location.0.offset << 8) | (location.0.count & 0xff)
}

/// The location that a header word names.
pub open spec fn word_location(word: u32) -> ChunkLocation {
    ChunkLocation(SectorBlock { offset: word >> 8, count: word & 0xff })
}

/// Whether a location can be written to a header without loss: the offset
/// fits 24 bits and the count 8.
pub open spec fn location_fits(location: ChunkLocation) -> bool {
    location.0.offset < 0x100_0000 && location.0.count < 0x100
}

/// The words of a header: a word per location, then the timestamps.
pub open spec fn header_words(locations: Seq<ChunkLocation>, timestamps: Seq<u32>) -> Seq<u32> {
    Seq::new(locations.len(), |i: int| location_word(locations[i])) + timestamps
}

/// A region file's header contains information
/// about the positions and timestamps of chunks in the region
/// file.
#[derive(Debug)]
pub struct RegionHeader {
    /// Locations of chunks in the file, relative to the start.
    pub locations: Vec<ChunkLocation>,
    /// UNIX timestamps (supposedly) indicating the last time a chunk
    /// was modified.
    pub timestamps: Vec<u32>,
}

fn push_word(out: &mut Vec<u8>, word: u32)
    ensures
        final(out)@ == old(out)@ + Seq::new(4, |k: int| be_byte(word, k)),
{
    let b0 = (word >> 24) as u8;
    let b1 = ((word >> 16) & 0xff) as u8;
    let b2 = ((word >> 8) & 0xff) as u8;
    let b3 = (word & 0xff) as u8;
    out.push(b0);
    out.push(b1);
    out.push(b2);
    out.push(b3);
    proof {
        assert(out@ =~= old(out)@ + Seq::new(4, |k: int| be_byte(word, k)));
    }
}

/// Reads the big-endian word at `at`.
pub fn read_word(bytes: &[u8], at: usize) -> (r: u32)
    requires
        at + 4 <= bytes@.len(),
    ensures
        r == be_word(bytes@, at as int),
{
    ((bytes[at] as u32) << 24) | ((bytes[at + 1] as u32) << 16) | ((bytes[at + 2] as u32) << 8) | (
    bytes[at + 3] as u32)
}

/// The big-endian form of a word, as the four bytes that a reader of the
/// file sees.
pub fn word_bytes(word: u32) -> (r: Vec<u8>)
    ensures
        r@ == be_bytes(seq![word]),
        be_word(r@, 0) == word,
{
    let mut out: Vec<u8> = Vec::with_capacity(4);
    push_word(&mut out, word);
    proof {
        assert(out@ =~= be_bytes(seq![word]));
        lemma_word_round_trip(word);
    }
    out
}

/// Reading the big-endian form of a word gives the word back.
pub proof fn lemma_word_round_trip(word: u32)
    ensures
        ((be_byte(word, 0) as u32) << 24) | ((be_byte(word, 1) as u32) << 16) | ((be_byte(
            word,
            2,
        ) as u32) << 8) | (be_byte(word, 3) as u32) == word,
{
    let b0 = (word >> 24) as u8;
    let b1 = ((word >> 16) & 0xff) as u8;
    let b2 = ((word >> 8) & 0xff) as u8;
    let b3 = (word & 0xff) as u8;
    assert(((b0 as u32) << 24) | ((b1 as u32) << 16) | ((b2 as u32) << 8) | (b3 as u32) == word)
        by (bit_vector)
        requires
            b0 == (word >> 24) as u8,
            b1 == ((word >> 16) & 0xff) as u8,
            b2 == ((word >> 8) & 0xff) as u8,
            b3 == (word & 0xff) as u8,
    ;
}

/// Writing the word that four bytes spell gives the bytes back.
pub proof fn lemma_bytes_round_trip(b0: u8, b1: u8, b2: u8, b3: u8)
    ensures
        ({
            let word = ((b0 as u32) << 24) | ((b1 as u32) << 16) | ((b2 as u32) << 8) | (b3 as u32);
            &&& be_byte(word, 0) == b0
            &&& be_byte(word, 1) == b1
            &&& be_byte(word, 2) == b2
            &&& be_byte(word, 3) == b3
        }),
{
    let word = ((b0 as u32) << 24) | ((b1 as u32) << 16) | ((b2 as u32) << 8) | (b3 as u32);
    assert((word >> 24) as u8 == b0 && ((word >> 16) & 0xff) as u8 == b1 && ((word >> 8) & 0xff) as u8
        == b2 && (word & 0xff) as u8 == b3) by (bit_vector)
        requires
            word == ((b0 as u32) << 24) | ((b1 as u32) << 16) | ((b2 as u32) << 8) | (b3 as u32),
    ;
}

/// A location that fits the header comes back from its header word.
pub proof fn lemma_location_round_trip(location: ChunkLocation)
    requires
        location_fits(location),
    ensures
        word_location(location_word(location)) == location,
{
    let offset = location.0.offset;
    let count = location.0.count;
    assert(((offset << 8) | (count & 0xff)) >> 8 == offset && ((offset << 8) | (count & 0xff)) & 0xff
        == count) by (bit_vector)
        requires
            offset < 0x100_0000,
            count < 0x100,
    ;
}

/// Every header word names a location that fits the header and spells the
/// word again.
pub proof fn lemma_word_location(word: u32)
    ensures
        location_fits(word_location(word)),
        location_word(word_location(word)) == word,
{
    assert((word >> 8) < 0x100_0000 && (word & 0xff) < 0x100 && (((word >> 8) << 8) | ((word & 0xff)
        & 0xff)) == word) by (bit_vector);
}

impl Default for RegionHeader {
    /// The header of an empty region: every chunk absent, every timestamp 0.
    fn default() -> (r: Self)
        ensures
            r.wf(),
            forall|i: int| 0 <= i < 1024 ==> !(#[trigger] r.locations@[i]).spec_is_present(),
            forall|i: int|
                0 <= i < 1024 ==> #[trigger] r.locations@[i] == ChunkLocation(
                    SectorBlock { offset: 0, count: 0 },
                ),
            forall|i: int| 0 <= i < 1024 ==> #[trigger] r.timestamps@[i] == 0,
    {
        let mut locations: Vec<ChunkLocation> = Vec::with_capacity(REGION_CHUNKS);
        let mut timestamps: Vec<u32> = Vec::with_capacity(REGION_CHUNKS);
        let mut i: usize = 0;
        while i < REGION_CHUNKS
            invariant
                i <= REGION_CHUNKS,
                locations@.len() == i,
                timestamps@.len() == i,
                forall|j: int|
                    0 <= j < i ==> #[trigger] locations@[j] == ChunkLocation(
                        SectorBlock { offset: 0, count: 0 },
                    ),
                forall|j: int| 0 <= j < i ==> #[trigger] timestamps@[j] == 0,
            decreases REGION_CHUNKS - i,
        {
            locations.push(ChunkLocation(SectorBlock { offset: 0, count: 0 }));
            timestamps.push(0);
            i = i + 1;
        }
        RegionHeader { locations, timestamps }
    }
}

impl RegionHeader {
    /// A header has a location and a timestamp for each of the 1024 chunks
    /// of its region.
    pub open spec fn wf(&self) -> bool {
        self.locations@.len() == 1024 && self.timestamps@.len() == 1024
    }

    /// The bytes of this header on disk.
    pub open spec fn spec_bytes(&self) -> Seq<u8> {
        be_bytes(header_words(self.locations@, self.timestamps@))
    }

    /// The slot of the chunk at `pos`.
    pub fn index(pos: ChunkPosition) -> (r: usize)
        ensures
            r == slot_index(pos),
            r < 1024,
    {
        let x = pos.x;
        let z = pos.z;
        assert(0 <= (x & 31) < 32) by (bit_vector);
        assert(0 <= (z & 31) < 32) by (bit_vector);
        let column: i32 = x & 31;
        let row: i32 = z & 31;
        (column + row * 32) as usize
    }

    /// Returns the `ChunkLocation` for the given chunk position.
    pub fn location_for_chunk(&self, pos: ChunkPosition) -> (r: ChunkLocation)
        requires
            self.wf(),
        ensures
            r == self.locations@[slot_index(pos)],
    {
        let index = Self::index(pos);
        self.locations[index]
    }

    /// Sets the location for the given chunk position.
    pub fn set_location_for_chunk(&mut self, pos: ChunkPosition, location: ChunkLocation)
        requires
            old(self).wf(),
        ensures
            final(self).wf(),
            final(self).locations@ == old(self).locations@.update(slot_index(pos), location),
            final(self).timestamps@ == old(self).timestamps@,
    {
        let index = Self::index(pos);
        self.locations.set(index, location);
    }

    /// Writes this header out: a word per location, then the timestamps,
    /// all big-endian.
    pub fn to_bytes(&self) -> (r: Vec<u8>)
        ensures
            r@ == self.spec_bytes(),
            r@.len() == 4 * (self.locations@.len() + self.timestamps@.len()),
            self.wf() ==> r@.len() == HEADER_BYTES,
    {
        let ghost words = header_words(self.locations@, self.timestamps@);
        let mut out: Vec<u8> = Vec::new();
        let mut i: usize = 0;
        while i < self.locations.len()
            invariant
                i <= self.locations@.len(),
                words == header_words(self.locations@, self.timestamps@),
                out@.len() == 4 * i,
                forall|j: int| 0 <= j < 4 * i ==> #[trigger] out@[j] == be_byte(words[j / 4], j % 4),
            decreases self.locations@.len() - i,
        {
            let location = self.locations[i];
            let value = (location.0.offset << 8) | (location.0.count & 0xff);
            assert(words[i as int] == value);
            push_word(&mut out, value);
            i = i + 1;
        }
        let n = self.locations.len();
        let mut k: usize = 0;
        while k < self.timestamps.len()
            invariant
                k <= self.timestamps@.len(),
                n == self.locations@.len(),
                words == header_words(self.locations@, self.timestamps@),
                out@.len() == 4 * (n + k),
                forall|j: int|
                    0 <= j < 4 * (n + k) ==> #[trigger] out@[j] == be_byte(words[j / 4], j % 4),
            decreases self.timestamps@.len() - k,
        {
            let value = self.timestamps[k];
            assert(words[n + k] == value);
            push_word(&mut out, value);
            k = k + 1;
        }
        proof {
            assert(out@ =~= self.spec_bytes());
        }
        out
    }

    /// Reads a header from the first 8192 bytes of a region file, or fails
    /// where the file is shorter than that.
    pub fn from_bytes(bytes: &[u8]) -> (r: Result<RegionHeader, Error>)
        ensures
            bytes@.len() < HEADER_BYTES <==> r is Err,
            r is Err ==> r == Err::<RegionHeader, Error>(Error::HeaderTooSmall),
            r matches Ok(header) ==> {
                &&& header.wf()
                &&& forall|i: int|
                    0 <= i < 1024 ==> #[trigger] header.locations@[i] == word_location(
                        be_word(bytes@, 4 * i),
                    )
                &&& forall|i: int|
                    0 <= i < 1024 ==> #[trigger] header.timestamps@[i] == be_word(
                        bytes@,
                        4096 + 4 * i,
                    )
            },
    {
        // The header consists of 8 KiB of data, so
        // we can return an error early if it's too small.
        if bytes.len() < HEADER_BYTES {
            return Err(Error::HeaderTooSmall);
        }
        let mut locations: Vec<ChunkLocation> = Vec::with_capacity(REGION_CHUNKS);
        let mut timestamps: Vec<u32> = Vec::with_capacity(REGION_CHUNKS);
        // The first 4 KiB contains the location
        // and sector length data. The first three
        // bytes of a 4-byte value contain the offset,
        // while the next byte contains the sector length.
        let mut i: usize = 0;
        while i < REGION_CHUNKS
            invariant
                i <= REGION_CHUNKS,
                bytes@.len() >= HEADER_BYTES,
                locations@.len() == i,
                forall|j: int|
                    0 <= j < i ==> #[trigger] locations@[j] == word_location(
                        be_word(bytes@, 4 * j),
                    ),
            decreases REGION_CHUNKS - i,
        {
            let val = read_word(bytes, 4 * i);
            let offset = val >> 8;
            let count = val & 0xff;
            locations.push(ChunkLocation(SectorBlock { offset, count }));
            i = i + 1;
        }
        // The next 4 KiB contains timestamp data - one
        // for each chunk.
        let mut k: usize = 0;
        while k < REGION_CHUNKS
            invariant
                k <= REGION_CHUNKS,
                bytes@.len() >= HEADER_BYTES,
                timestamps@.len() == k,
                forall|j: int|
                    0 <= j < k ==> #[trigger] timestamps@[j] == be_word(bytes@, 4096 + 4 * j),
            decreases REGION_CHUNKS - k,
        {
            let timestamp = read_word(bytes, 4096 + 4 * k);
            timestamps.push(timestamp);
            k = k + 1;
        }
        Ok(RegionHeader { locations, timestamps })
    }
}

/// Header round trip: the bytes written for a header whose locations fit
/// read back as the same locations and timestamps.
pub proof fn law_header_round_trip(header: RegionHeader, i: int)
    requires
        header.wf(),
        0 <= i < 1024,
        location_fits(header.locations@[i]),
    ensures
        header.spec_bytes().len() == HEADER_BYTES,
        word_location(be_word(header.spec_bytes(), 4 * i)) == header.locations@[i],
        be_word(header.spec_bytes(), 4096 + 4 * i) == header.timestamps@[i],
{
    let words = header_words(header.locations@, header.timestamps@);
    let bytes = header.spec_bytes();
    lemma_word_round_trip(words[i]);
    lemma_word_round_trip(words[1024 + i]);
    lemma_location_round_trip(header.locations@[i]);
    assert(bytes[4 * i] == be_byte(words[i], 0));
    assert(bytes[4 * i + 1] == be_byte(words[i], 1));
    assert(bytes[4 * i + 2] == be_byte(words[i], 2));
    assert(bytes[4 * i + 3] == be_byte(words[i], 3));
    assert(bytes[4096 + 4 * i] == be_byte(words[1024 + i], 0));
    assert(bytes[4096 + 4 * i + 1] == be_byte(words[1024 + i], 1));
    assert(bytes[4096 + 4 * i + 2] == be_byte(words[1024 + i], 2));
    assert(bytes[4096 + 4 * i + 3] == be_byte(words[1024 + i], 3));
}

/// Header round trip, the other way: the header that was read from the
/// first 8192 bytes of a file writes those bytes again.
pub proof fn law_header_bytes_round_trip(bytes: Seq<u8>, header: RegionHeader, k: int)
    requires
        bytes.len() >= HEADER_BYTES,
        header.wf(),
        forall|i: int|
            0 <= i < 1024 ==> #[trigger] header.locations@[i] == word_location(be_word(bytes, 4 * i)),
        forall|i: int|
            0 <= i < 1024 ==> #[trigger] header.timestamps@[i] == be_word(bytes, 4096 + 4 * i),
        0 <= k < HEADER_BYTES,
    ensures
        header.spec_bytes()[k] == bytes[k],
{
    let words = header_words(header.locations@, header.timestamps@);
    let w = k / 4;
    let at = 4 * w;
    lemma_bytes_round_trip(bytes[at], bytes[at + 1], bytes[at + 2], bytes[at + 3]);
    if w < 1024 {
        lemma_word_location(be_word(bytes, at));
        assert(words[w] == location_word(header.locations@[w]));
    } else {
        assert(words[w] == header.timestamps@[w - 1024]);
        assert(4096 + 4 * (w - 1024) == at);
    }
    assert(words[w] == be_word(bytes, at));
}

} // verus!
