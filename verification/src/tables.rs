//! The tables that give chunk records their meaning: which block state a
//! name with its properties stands for, and which biome ids exist.
//!
//! The tables are data that the caller loads; this library only looks
//! things up in them.

use vstd::prelude::*;

verus! {

/// A property of a block state, such as `facing` = `north`.
#[derive(Debug)]
pub struct Property {
    pub key: String,
    pub value: String,
}

impl Clone for Property {
    fn clone(&self) -> (r: Self)
        ensures
            r == *self,
    {
        Property { key: self.key.clone(), value: self.value.clone() }
    }
}

/// A block state: its numeric id, the identifier of its block, its
/// properties in the order of their keys, and the heightmaps it counts for.
#[derive(Debug)]
pub struct BlockState {
    /// The compact numeric id of the state.
    pub id: u16,
    /// The identifier of the block, such as `minecraft:oak_log`.
    pub name: String,
    /// The properties of the state.
    pub properties: Vec<Property>,
    /// Bit `k` is set where a block of this state counts for heightmap `k`.
    pub heightmaps: u8,
}

/// Whether two property lists hold the same keys and values in the same
/// order.
pub open spec fn same_properties(a: Seq<Property>, b: Seq<Property>) -> bool {
    &&& a.len() == b.len()
    &&& forall|i: int|
        0 <= i < a.len() ==> (#[trigger] a[i]).key@ == b[i].key@ && a[i].value@ == b[i].value@
}

/// Whether `state` is the state of the block `name` with `properties`.
pub open spec fn state_matches(state: BlockState, name: Seq<char>, properties: Seq<Property>) -> bool {
    state.name@ == name && same_properties(state.properties@, properties)
}

/// The index of the first state at or after `from` that `name` and
/// `properties` stand for.
pub open spec fn first_match(
    states: Seq<BlockState>,
    name: Seq<char>,
    properties: Seq<Property>,
    from: int,
) -> Option<int>
    decreases states.len() - from,
{
    if from < 0 || from >= states.len() {
        None
    } else if state_matches(states[from], name, properties) {
        Some(from)
    } else {
        first_match(states, name, properties, from + 1)
    }
}

/// The index of the first state at or after `from` with the id `id`.
pub open spec fn first_with_id(states: Seq<BlockState>, id: u16, from: int) -> Option<int>
    decreases states.len() - from,
{
    if from < 0 || from >= states.len() {
        None
    } else if states[from].id == id {
        Some(from)
    } else {
        first_with_id(states, id, from + 1)
    }
}

/// Compares two property lists.
pub fn properties_equal(a: &Vec<Property>, b: &Vec<Property>) -> (r: bool)
    ensures
        r == same_properties(a@, b@),
{
    if a.len() != b.len() {
        return false;
    }
    let mut i: usize = 0;
    while i < a.len()
        invariant
            i <= a@.len(),
            a@.len() == b@.len(),
            forall|j: int|
                0 <= j < i ==> (#[trigger] a@[j]).key@ == b@[j].key@ && a@[j].value@ == b@[j].value@,
        decreases a@.len() - i,
    {
        if !(a[i].key == b[i].key && a[i].value == b[i].value) {
            return false;
        }
        i = i + 1;
    }
    true
}

/// The table of block states.
#[derive(Debug)]
pub struct BlockStateTable {
    pub states: Vec<BlockState>,
}

impl BlockStateTable {
    /// The id of the state that `name` and `properties` stand for.
    pub open spec fn spec_resolve(&self, name: Seq<char>, properties: Seq<Property>) -> Option<u16> {
        match first_match(self.states@, name, properties, 0) {
            Some(i) => Some(self.states@[i].id),
            None => None,
        }
    }

    /// The index of the state with the id `id`.
    pub open spec fn spec_describe(&self, id: u16) -> Option<int> {
        first_with_id(self.states@, id, 0)
    }

    /// No two states share an id, or a name with its properties: each
    /// state is the one that its own description resolves to.
    pub open spec fn consistent(&self) -> bool {
        forall|i: int|
            0 <= i < self.states@.len() ==> first_match(
                self.states@,
                (#[trigger] self.states@[i]).name@,
                self.states@[i].properties@,
                0,
            ) == Some(i) && first_with_id(self.states@, self.states@[i].id, 0) == Some(i)
    }

    /// Creates a table of the given states.
    pub fn new(states: Vec<BlockState>) -> (r: Self)
        ensures
            r.states == states,
    {
        BlockStateTable { states }
    }

    /// Resolves a block identifier and its properties to the id of the
    /// state, or `None` where the table has no such state.
    pub fn resolve(&self, name: &str, properties: &Vec<Property>) -> (r: Option<u16>)
        ensures
            r == self.spec_resolve(name@, properties@),
    {
        let wanted = name.to_owned();
        let mut i: usize = 0;
        while i < self.states.len()
            invariant
                i <= self.states@.len(),
                wanted@ == name@,
                first_match(self.states@, name@, properties@, 0) == first_match(
                    self.states@,
                    name@,
                    properties@,
                    i as int,
                ),
            decreases self.states@.len() - i,
        {
            let state = &self.states[i];
            if state.name == wanted && properties_equal(&state.properties, properties) {
                return Some(state.id);
            }
            i = i + 1;
        }
        None
    }

    /// Describes the state with the given id, or returns `None` where the
    /// table has no such state.
    pub fn describe(&self, id: u16) -> (r: Option<&BlockState>)
        ensures
            match self.spec_describe(id) {
                Some(i) => r == Some(&self.states@[i]),
                None => r is None,
            },
    {
        let mut i: usize = 0;
        while i < self.states.len()
            invariant
                i <= self.states@.len(),
                first_with_id(self.states@, id, 0) == first_with_id(self.states@, id, i as int),
            decreases self.states@.len() - i,
        {
            if self.states[i].id == id {
                return Some(&self.states[i]);
            }
            i = i + 1;
        }
        None
    }
}

/// The index that `first_with_id` finds names a state with that id.
pub proof fn lemma_first_with_id(states: Seq<BlockState>, id: u16, from: int)
    requires
        0 <= from,
    ensures
        first_with_id(states, id, from) matches Some(i) ==> from <= i < states.len() && states[i].id
            == id,
    decreases states.len() - from,
{
    if from < states.len() && states[from].id != id {
        lemma_first_with_id(states, id, from + 1);
    }
}

/// The table of biomes: the ids that name a biome.
#[derive(Debug)]
pub struct BiomeTable {
    pub ids: Vec<i32>,
}

impl BiomeTable {
    /// Creates a table of the given ids.
    pub fn new(ids: Vec<i32>) -> (r: Self)
        ensures
            r.ids == ids,
    {
        BiomeTable { ids }
    }

    /// Whether `id` names a biome.
    pub fn contains(&self, id: i32) -> (r: bool)
        ensures
            r == self.ids@.contains(id),
    {
        let mut i: usize = 0;
        while i < self.ids.len()
            invariant
                i <= self.ids@.len(),
                forall|j: int| 0 <= j < i ==> self.ids@[j] != id,
            decreases self.ids@.len() - i,
        {
            if self.ids[i] == id {
                return true;
            }
            i = i + 1;
        }
        false
    }
}

} // verus!
