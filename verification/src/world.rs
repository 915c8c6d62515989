//! A world of entities and their components.
//!
//! An entity is named by its ID and carries components, at most one of each
//! kind. The index of an entity that was removed is handed out again, with
//! a generation one higher, so that the ID of the removed entity names
//! nothing any more.

use crate::component::{
    find_slot, gather, lookup, put_component, with_component, with_components, without_component,
    Bundle, Component, ComponentValue,
};
use crate::entity::{Entities, EntityId};
use crate::entity_builder::EntityBuilder;
use vstd::prelude::*;

verus! {

/// The world holds no entity with this ID.
#[derive(Clone, Copy, Debug, PartialEq, Eq, Structural)]
pub struct NoSuchEntity;

/// Why a component of an entity could not be reached.
#[derive(Clone, Copy, Debug, PartialEq, Eq, Structural)]
pub enum ComponentError {
    /// The world holds no entity with this ID.
    NoSuchEntity,
    /// The entity carries no component of the kind.
    MissingComponent,
}

/// The entities of a game and the components of each.
pub struct World {
    entities: Entities,
    components: Vec<Vec<ComponentValue>>,
    alive: Vec<bool>,
}

/// The IDs of the indices below `upto` that are alive, in index order.
pub open spec fn alive_ids(generations: Seq<u32>, alive: Seq<bool>, upto: int) -> Seq<EntityId>
    decreases upto,
{
    if upto <= 0 {
        Seq::empty()
    } else {
        let before = alive_ids(generations, alive, upto - 1);
        if alive[upto - 1] {
            before.push(EntityId { index: (upto - 1) as u32, generation: generations[upto - 1] })
        } else {
            before
        }
    }
}

impl World {
    /// The current generation of each index.
    pub closed spec fn generations(&self) -> Seq<u32> {
        self.entities.generations()
    }

    /// Which indices name an entity of the world.
    pub closed spec fn alive(&self) -> Seq<bool> {
        self.alive@
    }

    /// The components stored under the index `index`.
    pub closed spec fn stored(&self, index: int) -> Seq<ComponentValue> {
        self.components@[index]@
    }

    /// Every index has a generation, a list of components and a mark that
    /// tells whether it names an entity, and no index that is free for
    /// reuse names one.
    pub closed spec fn wf(&self) -> bool {
        &&& self.entities.wf()
        &&& self.components@.len() == self.entities.generations().len()
        &&& self.alive@.len() == self.entities.generations().len()
        &&& self.entities.free().no_duplicates()
        &&& forall|k: int|
            0 <= k < self.entities.free().len() ==> (#[trigger] self.entities.free()[k])
                < self.alive@.len() && !self.alive@[self.entities.free()[k] as int]
    }

    /// The sizes of a world agree.
    pub proof fn lemma_wf(&self)
        requires
            self.wf(),
        ensures
            self.alive().len() == self.generations().len(),
            self.generations().len() <= u32::MAX,
    {
        self.entities.lemma_wf();
    }

    /// Whether the world holds the entity `entity`.
    pub open spec fn contains(&self, entity: EntityId) -> bool {
        &&& entity.index < self.generations().len()
        &&& self.alive()[entity.index as int]
        &&& self.generations()[entity.index as int] == entity.generation
    }

    /// The components of the entity `entity`.
    pub open spec fn components_of(&self, entity: EntityId) -> Seq<ComponentValue> {
        self.stored(entity.index as int)
    }

    /// Whether `other` holds the entities of `self` but `entity`, each with
    /// its components.
    pub open spec fn same_but(&self, other: World, entity: EntityId) -> bool {
        forall|e: EntityId|
            e != entity ==> (#[trigger] other.contains(e)) == self.contains(e) && (self.contains(e)
                ==> other.components_of(e) == self.components_of(e))
    }

    /// Whether another entity can be spawned: the world holds fewer than
    /// `u32::MAX` indices or one of them is free.
    pub closed spec fn spec_can_spawn(&self) -> bool {
        self.entities.spec_can_allocate()
    }

    /// Tests whether another entity can be spawned.
    pub fn can_spawn(&self) -> (r: bool)
        requires
            self.wf(),
        ensures
            r == self.spec_can_spawn(),
    {
        self.entities.can_allocate()
    }

    /// Creates a world without entities.
    pub fn new() -> (r: Self)
        ensures
            r.wf(),
            r.generations().len() == 0,
            forall|e: EntityId| !r.contains(e),
    {
        World { entities: Entities::default(), components: Vec::new(), alive: Vec::new() }
    }

    fn spawn_values(&mut self, values: Vec<ComponentValue>) -> (r: EntityId)
        requires
            old(self).wf(),
            old(self).spec_can_spawn(),
        ensures
            final(self).wf(),
            !old(self).contains(r),
            final(self).contains(r),
            final(self).components_of(r) == values@,
            old(self).same_but(*final(self), r),
    {
        let entity = self.entities.allocate();
        let index = entity.index as usize;
        if index == self.components.len() {
            self.components.push(values);
            self.alive.push(true);
        } else {
            self.components.set(index, values);
            self.alive.set(index, true);
        }
        proof {
            let free = self.entities.free();
            assert forall|k: int| 0 <= k < free.len() implies (#[trigger] free[k]) < self.alive@.len()
                && !self.alive@[free[k] as int] by {
                if old(self).entities.free().len() > 0 {
                    assert(free[k] == old(self).entities.free()[k]);
                    assert(old(self).entities.free()[k] != old(self).entities.free().last());
                } else {
                    assert(free[k] == old(self).entities.free()[k]);
                }
            }
            assert forall|e: EntityId| e != entity implies (#[trigger] self.contains(e)) == old(
                self,
            ).contains(e) && (old(self).contains(e) ==> self.components_of(e) == old(
                self,
            ).components_of(e)) by {
                if e.index == entity.index {
                    if old(self).entities.free().len() > 0 {
                        let last = old(self).entities.free().len() - 1;
                        assert(old(self).entities.free()[last] == entity.index);
                    }
                }
            }
        }
        entity
    }

    /// Spawns an entity with the components of `bundle`.
    pub fn spawn_bundle<B: Bundle>(&mut self, bundle: B) -> (r: EntityId)
        requires
            old(self).wf(),
            old(self).spec_can_spawn(),
        ensures
            final(self).wf(),
            !old(self).contains(r),
            final(self).contains(r),
            final(self).components_of(r) == with_components(
                Seq::empty(),
                bundle.spec_values(),
                bundle.spec_values().len() as int,
            ),
            old(self).same_but(*final(self), r),
    {
        let values = gather(bundle.into_values());
        self.spawn_values(values)
    }

    /// Spawns an entity with the components of `builder` and empties the
    /// builder.
    pub fn spawn_builder(&mut self, builder: &mut EntityBuilder) -> (r: EntityId)
        requires
            old(self).wf(),
            old(self).spec_can_spawn(),
        ensures
            final(self).wf(),
            !old(self).contains(r),
            final(self).contains(r),
            final(self).components_of(r) == old(builder)@,
            old(self).same_but(*final(self), r),
            final(builder)@.len() == 0,
    {
        let values = builder.take();
        self.spawn_values(values)
    }

    /// Whether the world holds the entity `entity`.
    pub fn is_alive(&self, entity: EntityId) -> (r: bool)
        requires
            self.wf(),
        ensures
            r == self.contains(entity),
    {
        let index = entity.index as usize;
        if index >= self.alive.len() {
            return false;
        }
        self.alive[index] && self.entities.check_generation(entity).is_ok()
    }

    /// What `get` finds for a component type of the kind `kind`.
    pub open spec fn found(&self, entity: EntityId, kind: crate::component::ComponentKind) -> Result<
        ComponentValue,
        ComponentError,
    > {
        if !self.contains(entity) {
            Err(ComponentError::NoSuchEntity)
        } else {
            match lookup(self.components_of(entity), kind) {
                Some(value) => Ok(value),
                None => Err(ComponentError::MissingComponent),
            }
        }
    }

    /// Gets the component of type `T` of the entity `entity`.
    pub fn get<T: Component>(&self, entity: EntityId) -> (r: Result<&T, ComponentError>)
        requires
            self.wf(),
        ensures
            match self.found(entity, T::spec_kind()) {
                Ok(value) => r matches Ok(held) && T::spec_peek(value) == Some(*held),
                Err(e) => r == Err::<&T, ComponentError>(e),
            },
    {
        if !self.is_alive(entity) {
            return Err(ComponentError::NoSuchEntity);
        }
        let components = &self.components[entity.index as usize];
        let slot = match find_slot(components, T::component_kind()) {
            Some(slot) => slot,
            None => {
                return Err(ComponentError::MissingComponent);
            },
        };
        proof {
            crate::component::lemma_slot_of(components@, T::spec_kind(), 0);
            T::lemma_kind(components@[slot as int], arbitrary());
        }
        match T::peek(&components[slot]) {
            Some(held) => Ok(held),
            None => Err(ComponentError::MissingComponent),
        }
    }

    /// Gets the component of type `T` of the entity `entity` for writing.
    /// What the caller leaves in it is the component that the entity then
    /// carries.
    pub fn get_mut<T: Component>(&mut self, entity: EntityId) -> (r: Result<&mut T, ComponentError>)
        requires
            old(self).wf(),
        ensures
            final(self).wf(),
            old(self).same_but(*final(self), entity),
            final(self).contains(entity) == old(self).contains(entity),
            match old(self).found(entity, T::spec_kind()) {
                Ok(value) => r matches Ok(held) && T::spec_peek(value) == Some(*held)
                    && final(self).components_of(entity) == with_component(
                    old(self).components_of(entity),
                    (*final(held)).spec_wrap(),
                ),
                Err(e) => r is Err && r->Err_0 == e && final(self).components_of(entity) == old(
                    self,
                ).components_of(entity),
            },
    {
        if !self.is_alive(entity) {
            return Err(ComponentError::NoSuchEntity);
        }
        let index = entity.index as usize;
        let slot = match find_slot(&self.components[index], T::component_kind()) {
            Some(slot) => slot,
            None => {
                return Err(ComponentError::MissingComponent);
            },
        };
        proof {
            crate::component::lemma_slot_of(self.components@[index as int]@, T::spec_kind(), 0);
            T::lemma_kind(self.components@[index as int]@[slot as int], arbitrary());
        }
        match T::peek_mut(&mut self.components[index][slot]) {
            Some(held) => {
                proof {
                    T::lemma_kind(arbitrary(), *final(held));
                }
                Ok(held)
            },
            None => Err(ComponentError::MissingComponent),
        }
    }

    /// Gives the entity `entity` the component `component`, in place of
    /// the one of its kind where the entity carries one.
    pub fn insert<T: Component>(&mut self, entity: EntityId, component: T) -> (r: Result<
        (),
        NoSuchEntity,
    >)
        requires
            old(self).wf(),
        ensures
            final(self).wf(),
            r is Ok <==> old(self).contains(entity),
            old(self).same_but(*final(self), entity),
            final(self).contains(entity) == old(self).contains(entity),
            r is Ok ==> final(self).components_of(entity) == with_component(
                old(self).components_of(entity),
                component.spec_wrap(),
            ),
            r is Err ==> final(self).components_of(entity) == old(self).components_of(entity),
    {
        if !self.is_alive(entity) {
            return Err(NoSuchEntity);
        }
        let index = entity.index as usize;
        let mut components: Vec<ComponentValue> = Vec::new();
        std::mem::swap(&mut components, &mut self.components[index]);
        put_component(&mut components, component.wrap());
        self.components.set(index, components);
        Ok(())
    }

    /// Takes the component of type `T` from the entity `entity`.
    pub fn remove<T: Component>(&mut self, entity: EntityId) -> (r: Result<T, ComponentError>)
        requires
            old(self).wf(),
        ensures
            final(self).wf(),
            old(self).same_but(*final(self), entity),
            final(self).contains(entity) == old(self).contains(entity),
            match old(self).found(entity, T::spec_kind()) {
                Ok(value) => r matches Ok(held) && T::spec_peek(value) == Some(held)
                    && final(self).components_of(entity) == without_component(
                    old(self).components_of(entity),
                    T::spec_kind(),
                ),
                Err(e) => r is Err && r->Err_0 == e && final(self).components_of(entity) == old(
                    self,
                ).components_of(entity),
            },
    {
        if !self.is_alive(entity) {
            return Err(ComponentError::NoSuchEntity);
        }
        let index = entity.index as usize;
        let slot = match find_slot(&self.components[index], T::component_kind()) {
            Some(slot) => slot,
            None => {
                return Err(ComponentError::MissingComponent);
            },
        };
        let mut components: Vec<ComponentValue> = Vec::new();
        std::mem::swap(&mut components, &mut self.components[index]);
        proof {
            crate::component::lemma_slot_of(components@, T::spec_kind(), 0);
        }
        let value = components.remove(slot);
        self.components.set(index, components);
        proof {
            T::lemma_kind(value, arbitrary());
        }
        match T::unwrap(value) {
            Some(held) => Ok(held),
            None => Err(ComponentError::MissingComponent),
        }
    }

    /// Removes the entity `entity` with its components.
    pub fn despawn(&mut self, entity: EntityId) -> (r: Result<(), NoSuchEntity>)
        requires
            old(self).wf(),
        ensures
            final(self).wf(),
            r is Ok <==> old(self).contains(entity),
            !final(self).contains(entity),
            old(self).same_but(*final(self), entity),
    {
        if !self.is_alive(entity) {
            return Err(NoSuchEntity);
        }
        let index = entity.index as usize;
        self.alive.set(index, false);
        self.components.set(index, Vec::new());
        if entity.generation < u32::MAX {
            proof {
                assert(!old(self).entities.free().contains(entity.index)) by {
                    if old(self).entities.free().contains(entity.index) {
                        let k = choose|k: int|
                            0 <= k < old(self).entities.free().len() && old(self).entities.free()[k]
                                == entity.index;
                        assert(!old(self).alive@[old(self).entities.free()[k] as int]);
                    }
                }
            }
            let freed = self.entities.deallocate(entity);
            proof {
                let free = self.entities.free();
                assert forall|k: int| 0 <= k < free.len() implies (#[trigger] free[k])
                    < self.alive@.len() && !self.alive@[free[k] as int] by {
                    if k < old(self).entities.free().len() {
                        assert(free[k] == old(self).entities.free()[k]);
                    }
                }
                assert(free.no_duplicates()) by {
                    assert forall|i: int, j: int| 0 <= i < free.len() && 0 <= j < free.len() && i
                        != j implies free[i] != free[j] by {
                        let before = old(self).entities.free();
                        if i < before.len() && j < before.len() {
                            assert(before[i] != before[j]);
                        } else if i < before.len() {
                            assert(before.contains(before[i]));
                        } else {
                            assert(before.contains(before[j]));
                        }
                    }
                }
            }
        }
        Ok(())
    }

    /// Asks for the components named by `Q` on every entity.
    pub fn query<'a, Q: crate::query::Query<'a>>(&'a self) -> (r: crate::query::QueryBorrow<'a, Q>)
        ensures
            r.world() == *self,
    {
        crate::query::QueryBorrow::new(self)
    }

    /// The components of the entity `entity`, where the world holds it.
    pub fn components(&self, entity: EntityId) -> (r: Option<&Vec<ComponentValue>>)
        requires
            self.wf(),
        ensures
            match r {
                Some(components) => self.contains(entity) && components@ == self.components_of(entity),
                None => !self.contains(entity),
            },
    {
        if self.is_alive(entity) {
            Some(&self.components[entity.index as usize])
        } else {
            None
        }
    }

    /// The ID that each index has at its current generation, whether it
    /// names an entity or not.
    pub fn iter_all(&self) -> (r: Vec<EntityId>)
        requires
            self.wf(),
        ensures
            r@.len() == self.generations().len(),
            forall|k: int|
                0 <= k < r@.len() ==> (#[trigger] r@[k]) == (EntityId {
                    index: k as u32,
                    generation: self.generations()[k],
                }),
    {
        let mut out: Vec<EntityId> = Vec::new();
        let mut index: usize = 0;
        proof {
            self.entities.lemma_wf();
        }
        while index < self.alive.len()
            invariant
                self.wf(),
                index <= self.alive@.len(),
                self.alive@.len() == self.entities.generations().len(),
                self.alive@.len() <= u32::MAX,
                out@.len() == index,
                forall|k: int|
                    0 <= k < index ==> (#[trigger] out@[k]) == (EntityId {
                        index: k as u32,
                        generation: self.entities.generations()[k],
                    }),
            decreases self.alive@.len() - index,
        {
            out.push(self.entities.get(index as u32));
            index = index + 1;
        }
        out
    }

    /// Returns an iterator over the IDs of the entities of the world, in
    /// index order.
    pub fn iter(&self) -> (r: std::vec::IntoIter<EntityId>)
        requires
            self.wf(),
        ensures
            vstd::std_specs::vec::into_iter_elts(r) == alive_ids(
                self.generations(),
                self.alive(),
                self.generations().len() as int,
            ),
    {
        broadcast use vstd::std_specs::vec::axiom_spec_into_iter;

        self.ids().into_iter()
    }

    /// The IDs of the entities of the world, in index order.
    pub fn ids(&self) -> (r: Vec<EntityId>)
        requires
            self.wf(),
        ensures
            r@ == alive_ids(self.generations(), self.alive(), self.generations().len() as int),
            forall|i: int| 0 <= i < r@.len() ==> self.contains(#[trigger] r@[i]),
    {
        let mut out: Vec<EntityId> = Vec::new();
        let mut index: usize = 0;
        proof {
            self.entities.lemma_wf();
        }
        while index < self.alive.len()
            invariant
                self.wf(),
                index <= self.alive@.len(),
                self.alive@.len() == self.entities.generations().len(),
                self.alive@.len() <= u32::MAX,
                out@ == alive_ids(self.entities.generations(), self.alive@, index as int),
                forall|i: int| 0 <= i < out@.len() ==> self.contains(#[trigger] out@[i]),
            decreases self.alive@.len() - index,
        {
            if self.alive[index] {
                out.push(self.entities.get(index as u32));
            }
            index = index + 1;
        }
        out
    }
}

} // verus!
