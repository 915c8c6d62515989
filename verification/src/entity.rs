//! Entity IDs and their allocator.
//!
//! An entity ID is an index together with a generation. When an entity is
//! removed its index becomes free and the generation of the index goes up by
//! one, so that the ID of the removed entity no longer matches.

use vstd::prelude::*;

verus! {

/// The ID of an entity.
#[derive(Clone, Copy, Debug, PartialEq, Eq, Structural, Hash)]
pub struct EntityId {
    pub index: u32,
    pub generation: u32,
}

/// The 64 bits of an ID: the index in the upper half, the generation in the
/// lower.
pub open spec fn id_bits(id: EntityId) -> u64 {
    ((id.index as u64) << 32) | (id.generation as u64)
}

/// The ID that 64 bits spell.
pub open spec fn bits_id(bits: u64) -> EntityId {
    EntityId { index: (bits >> 32) as u32, generation: bits as u32 }
}

impl EntityId {
    pub fn to_bits(self) -> (r: u64)
        ensures
            r == id_bits(self),
    {
        ((self.index as u64) << 32) | (self.generation as u64)
    }

    pub fn from_bits(bits: u64) -> (r: Self)
        ensures
            r == bits_id(bits),
    {
        let index = (bits >> 32) as u32;
        let generation = bits as u32;
        EntityId { index, generation }
    }

    pub fn index(self) -> (r: u32)
        ensures
            r == self.index,
    {
        self.index
    }

    pub fn generation(self) -> (r: u32)
        ensures
            r == self.generation,
    {
        self.generation
    }
}

/// An ID comes back from its bits, and bits from their ID.
pub proof fn law_bits_round_trip(id: EntityId, bits: u64)
    ensures
        bits_id(id_bits(id)) == id,
        id_bits(bits_id(bits)) == bits,
{
    let index = id.index;
    let generation = id.generation;
    assert(((((index as u64) << 32) | (generation as u64)) >> 32) as u32 == index && (((index as u64)
        << 32) | (generation as u64)) as u32 == generation) by (bit_vector);
    assert(((((bits >> 32) as u32) as u64) << 32) | ((bits as u32) as u64) == bits) by (bit_vector);
}

/// The generation of an ID is not the current one of its index.
#[derive(Clone, Copy, Debug, PartialEq, Eq, Structural)]
pub struct GenerationMismatch;

/// Allocator for entity IDs. Maintains generations
/// and indices.
pub struct Entities {
    free_indices: Vec<u32>,
    next_index: u32,
    generations: Vec<u32>,
}

/// The IDs of indices below `upto` that are not free, in index order.
pub open spec fn live_ids(generations: Seq<u32>, free: Seq<u32>, upto: int) -> Seq<EntityId>
    decreases upto,
{
    if upto <= 0 {
        Seq::empty()
    } else {
        let before = live_ids(generations, free, upto - 1);
        if free.contains((upto - 1) as u32) {
            before
        } else {
            before.push(EntityId { index: (upto - 1) as u32, generation: generations[upto - 1] })
        }
    }
}

impl Default for Entities {
    /// An allocator that has handed out no ID.
    fn default() -> (r: Self)
        ensures
            r.wf(),
            r.generations().len() == 0,
            r.free().len() == 0,
    {
        Entities { free_indices: Vec::new(), next_index: 0, generations: Vec::new() }
    }
}

impl Entities {
    /// The current generation of each index that was ever handed out.
    pub closed spec fn generations(&self) -> Seq<u32> {
        self.generations@
    }

    /// The indices that are free for reuse, the one to be reused first at
    /// the end.
    pub closed spec fn free(&self) -> Seq<u32> {
        self.free_indices@
    }

    /// Every index below the next fresh one has a generation, and every free
    /// index is one of them.
    pub closed spec fn wf(&self) -> bool {
        &&& self.generations@.len() == self.next_index
        &&& forall|i: int|
            0 <= i < self.free_indices@.len() ==> #[trigger] self.free_indices@[i] < self.next_index
    }

    /// The indices handed out so far are fewer than `u32::MAX`.
    pub proof fn lemma_wf(&self)
        requires
            self.wf(),
        ensures
            self.generations().len() <= u32::MAX,
            forall|k: int|
                0 <= k < self.free().len() ==> (#[trigger] self.free()[k]) < self.generations().len(),
    {
    }

    /// Whether another ID can be allocated: an index is free or a fresh one
    /// is left.
    pub open spec fn spec_can_allocate(&self) -> bool {
        self.free().len() > 0 || self.generations().len() < u32::MAX
    }

    /// Tests whether another ID can be allocated.
    pub fn can_allocate(&self) -> (r: bool)
        requires
            self.wf(),
        ensures
            r == self.spec_can_allocate(),
    {
        self.free_indices.len() > 0 || self.next_index < u32::MAX
    }

    /// Allocates a new, unique entity ID: the index freed last with its
    /// current generation, or a fresh index with generation 0.
    pub fn allocate(&mut self) -> (r: EntityId)
        requires
            old(self).wf(),
            old(self).spec_can_allocate(),
        ensures
            final(self).wf(),
            old(self).free().len() > 0 ==> {
                &&& r.index == old(self).free().last()
                &&& r.generation == old(self).generations()[r.index as int]
                &&& final(self).free() == old(self).free().drop_last()
                &&& final(self).generations() == old(self).generations()
            },
            old(self).free().len() == 0 ==> {
                &&& r.index == old(self).generations().len()
                &&& r.generation == 0
                &&& final(self).free() == old(self).free()
                &&& final(self).generations() == old(self).generations().push(0)
            },
            r.index < final(self).generations().len(),
            final(self).generations()[r.index as int] == r.generation,
    {
        let index = match self.free_indices.pop() {
            Some(index) => index,
            None => {
                self.next_index = self.next_index + 1;
                self.next_index - 1
            },
        };
        let generation = self.new_generation(index);
        EntityId { index, generation }
    }

    /// Deallocates an entity ID, allowing its index to be reused.
    pub fn deallocate(&mut self, entity: EntityId) -> (r: Result<(), GenerationMismatch>)
        requires
            old(self).wf(),
            entity.index < old(self).generations().len(),
            old(self).generations()[entity.index as int] < u32::MAX,
        ensures
            final(self).wf(),
            r is Ok <==> old(self).generations()[entity.index as int] == entity.generation,
            r is Ok ==> {
                &&& final(self).free() == old(self).free().push(entity.index)
                &&& final(self).generations() == old(self).generations().update(
                    entity.index as int,
                    (entity.generation + 1) as u32,
                )
            },
            r is Err ==> {
                &&& final(self).free() == old(self).free()
                &&& final(self).generations() == old(self).generations()
            },
    {
        match self.check_generation(entity) {
            Ok(()) => {},
            Err(e) => {
                return Err(e);
            },
        }
        self.free_indices.push(entity.index);
        let generation = self.generations[entity.index as usize];
        self.generations.set(entity.index as usize, generation + 1);
        Ok(())
    }

    fn new_generation(&mut self, index: u32) -> (r: u32)
        requires
            index <= old(self).generations@.len(),
            old(self).generations@.len() < u32::MAX || index < old(self).generations@.len(),
        ensures
            final(self).next_index == old(self).next_index,
            final(self).free_indices == old(self).free_indices,
            index == old(self).generations@.len() ==> r == 0 && final(self).generations@ == old(
                self,
            ).generations@.push(0),
            index < old(self).generations@.len() ==> r == old(self).generations@[index as int]
                && final(self).generations@ == old(self).generations@,
    {
        if index as usize == self.generations.len() {
            self.generations.push(0);
            0
        } else {
            self.generations[index as usize]
        }
    }

    /// Verifies that the generation of `entity` is up to date.
    pub fn check_generation(&self, entity: EntityId) -> (r: Result<(), GenerationMismatch>)
        requires
            entity.index < self.generations().len(),
        ensures
            r is Ok <==> self.generations()[entity.index as int] == entity.generation,
    {
        if self.generations[entity.index as usize] != entity.generation {
            Err(GenerationMismatch)
        } else {
            Ok(())
        }
    }

    /// Gets the entity with generation for the given index.
    pub fn get(&self, index: u32) -> (r: EntityId)
        requires
            index < self.generations().len(),
        ensures
            r == (EntityId { index, generation: self.generations()[index as int] }),
    {
        EntityId { index, generation: self.generations[index as usize] }
    }

    fn is_free(&self, index: u32) -> (r: bool)
        ensures
            r == self.free_indices@.contains(index),
    {
        let mut i: usize = 0;
        while i < self.free_indices.len()
            invariant
                i <= self.free_indices@.len(),
                forall|j: int| 0 <= j < i ==> self.free_indices@[j] != index,
            decreases self.free_indices@.len() - i,
        {
            if self.free_indices[i] == index {
                return true;
            }
            i = i + 1;
        }
        false
    }

    /// Returns an iterator over the IDs whose index is not free, in index
    /// order.
    pub fn iter(&self) -> (r: std::vec::IntoIter<EntityId>)
        requires
            self.wf(),
        ensures
            vstd::std_specs::vec::into_iter_elts(r) == live_ids(
                self.generations(),
                self.free(),
                self.generations().len() as int,
            ),
    {
        broadcast use vstd::std_specs::vec::axiom_spec_into_iter;

        self.ids().into_iter()
    }

    /// The IDs whose index is not free, in index order.
    pub fn ids(&self) -> (r: Vec<EntityId>)
        requires
            self.wf(),
        ensures
            r@ == live_ids(self.generations(), self.free(), self.generations().len() as int),
    {
        let mut out: Vec<EntityId> = Vec::new();
        let mut index: u32 = 0;
        while index < self.next_index
            invariant
                self.wf(),
                index <= self.next_index,
                out@ == live_ids(self.generations@, self.free_indices@, index as int),
            decreases self.next_index - index,
        {
            if !self.is_free(index) {
                out.push(EntityId { index, generation: self.generations[index as usize] });
            }
            index = index + 1;
        }
        out
    }
}

} // verus!
