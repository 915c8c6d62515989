//! Queries over the entities of a world.
//!
//! A query asks for components by their types: `&T` for the component of
//! type `T`, and a tuple of such for several at once. It finds every
//! entity that carries all of them, in index order.

use crate::component::{find_slot, lemma_slot_of, lookup, Component, ComponentValue};
use crate::entity::EntityId;
use crate::world::World;
use std::marker::PhantomData;
use vstd::prelude::*;

verus! {

/// What can be asked of the components of an entity.
pub trait Query<'a>: Sized {
    /// Whether `found` is what the query finds among `components`.
    spec fn matches(components: Seq<ComponentValue>, found: Self) -> bool;

    /// Whether the query finds something among `components`.
    spec fn satisfied(components: Seq<ComponentValue>) -> bool;

    /// Finds what the query asks for among `components`, or `None` where
    /// one of the components asked for is missing.
    fn fetch(components: &'a Vec<ComponentValue>) -> (r: Option<Self>)
        ensures
            r is Some <==> Self::satisfied(components@),
            r matches Some(found) ==> Self::matches(components@, found),
    ;
}

impl<'a, T: Component> Query<'a> for &'a T {
    open spec fn matches(components: Seq<ComponentValue>, found: &'a T) -> bool {
        lookup(components, T::spec_kind()) matches Some(value) && T::spec_peek(value) == Some(*found)
    }

    open spec fn satisfied(components: Seq<ComponentValue>) -> bool {
        lookup(components, T::spec_kind()) is Some
    }

    fn fetch(components: &'a Vec<ComponentValue>) -> (r: Option<&'a T>) {
        match find_slot(components, T::component_kind()) {
            Some(slot) => {
                proof {
                    lemma_slot_of(components@, T::spec_kind(), 0);
                    T::lemma_kind(components@[slot as int], arbitrary());
                }
                T::peek(&components[slot])
            },
            None => None,
        }
    }
}

impl<'a, A: Query<'a>, B: Query<'a>> Query<'a> for (A, B) {
    open spec fn matches(components: Seq<ComponentValue>, found: (A, B)) -> bool {
        A::matches(components, found.0) && B::matches(components, found.1)
    }

    open spec fn satisfied(components: Seq<ComponentValue>) -> bool {
        A::satisfied(components) && B::satisfied(components)
    }

    fn fetch(components: &'a Vec<ComponentValue>) -> (r: Option<(A, B)>) {
        match A::fetch(components) {
            Some(a) => match B::fetch(components) {
                Some(b) => Some((a, b)),
                None => None,
            },
            None => None,
        }
    }
}

impl<'a, A: Query<'a>, B: Query<'a>, C: Query<'a>> Query<'a> for (A, B, C) {
    open spec fn matches(components: Seq<ComponentValue>, found: (A, B, C)) -> bool {
        A::matches(components, found.0) && B::matches(components, found.1) && C::matches(
            components,
            found.2,
        )
    }

    open spec fn satisfied(components: Seq<ComponentValue>) -> bool {
        A::satisfied(components) && B::satisfied(components) && C::satisfied(components)
    }

    fn fetch(components: &'a Vec<ComponentValue>) -> (r: Option<(A, B, C)>) {
        match A::fetch(components) {
            Some(a) => match B::fetch(components) {
                Some(b) => match C::fetch(components) {
                    Some(c) => Some((a, b, c)),
                    None => None,
                },
                None => None,
            },
            None => None,
        }
    }
}

/// A query on a world, not yet run.
pub struct QueryBorrow<'a, Q> {
    world: &'a World,
    asked: PhantomData<Q>,
}

/// The entities below the index `upto` that a query is satisfied by, in
/// index order.
pub open spec fn satisfying<'a, Q: Query<'a>>(world: World, upto: int) -> Seq<EntityId>
    decreases upto,
{
    if upto <= 0 {
        Seq::empty()
    } else {
        let before = satisfying::<Q>(world, upto - 1);
        let entity = EntityId { index: (upto - 1) as u32, generation: world.generations()[upto - 1] };
        if world.alive()[upto - 1] && Q::satisfied(world.components_of(entity)) {
            before.push(entity)
        } else {
            before
        }
    }
}

impl<'a, Q: Query<'a>> QueryBorrow<'a, Q> {
    /// The world that is asked.
    pub closed spec fn world(&self) -> World {
        *self.world
    }

    /// Asks `world`.
    pub fn new(world: &'a World) -> (r: Self)
        ensures
            r.world() == *world,
    {
        QueryBorrow { world, asked: PhantomData }
    }

    /// Runs the query: every entity that carries all that is asked for,
    /// with what was found on it, in index order.
    pub fn collect(&self) -> (r: Vec<(EntityId, Q)>)
        requires
            self.world().wf(),
        ensures
            r@.len() == satisfying::<Q>(self.world(), self.world().generations().len() as int).len(),
            forall|i: int|
                0 <= i < r@.len() ==> (#[trigger] r@[i]).0 == satisfying::<Q>(
                    self.world(),
                    self.world().generations().len() as int,
                )[i] && self.world().contains(r@[i].0) && Q::matches(
                    self.world().components_of(r@[i].0),
                    r@[i].1,
                ),
    {
        let world: &'a World = self.world;
        let entities = world.iter_all();
        let mut out: Vec<(EntityId, Q)> = Vec::new();
        let mut index: usize = 0;
        while index < entities.len()
            invariant
                world.wf(),
                *world == self.world(),
                index <= entities@.len(),
                entities@.len() == world.generations().len(),
                forall|k: int|
                    0 <= k < entities@.len() ==> (#[trigger] entities@[k]) == (EntityId {
                        index: k as u32,
                        generation: world.generations()[k],
                    }),
                out@.len() == satisfying::<Q>(*world, index as int).len(),
                forall|i: int|
                    0 <= i < out@.len() ==> (#[trigger] out@[i]).0 == satisfying::<Q>(
                        *world,
                        index as int,
                    )[i] && world.contains(out@[i].0) && Q::matches(
                        world.components_of(out@[i].0),
                        out@[i].1,
                    ),
            decreases entities@.len() - index,
        {
            let entity = entities[index];
            let ghost before = out@;
            proof {
                world.lemma_wf();
                assert(world.contains(entity) == world.alive()[index as int]);
            }
            match world.components(entity) {
                Some(components) => {
                    match Q::fetch(components) {
                        Some(found) => {
                            out.push((entity, found));
                        },
                        None => {},
                    }
                },
                None => {},
            }
            proof {
                let earlier = satisfying::<Q>(*world, index as int);
                let now = satisfying::<Q>(*world, index + 1);
                assert forall|i: int| 0 <= i < out@.len() implies (#[trigger] out@[i]).0 == now[i]
                    && world.contains(out@[i].0) && Q::matches(
                    world.components_of(out@[i].0),
                    out@[i].1,
                ) by {
                    if i < before.len() {
                        assert(out@[i] == before[i]);
                        assert(now[i] == earlier[i]);
                    }
                }
            }
            index = index + 1;
        }
        out
    }

    /// Runs the query and returns an iterator over what it found.
    pub fn iter(&self) -> (r: std::vec::IntoIter<(EntityId, Q)>)
        requires
            self.world().wf(),
        ensures
            vstd::std_specs::vec::into_iter_elts(r).len() == satisfying::<Q>(
                self.world(),
                self.world().generations().len() as int,
            ).len(),
            forall|i: int|
                0 <= i < vstd::std_specs::vec::into_iter_elts(r).len() ==> (
                #[trigger] vstd::std_specs::vec::into_iter_elts(r)[i]).0 == satisfying::<Q>(
                    self.world(),
                    self.world().generations().len() as int,
                )[i] && self.world().contains(vstd::std_specs::vec::into_iter_elts(r)[i].0)
                    && Q::matches(
                    self.world().components_of(vstd::std_specs::vec::into_iter_elts(r)[i].0),
                    vstd::std_specs::vec::into_iter_elts(r)[i].1,
                ),
    {
        broadcast use vstd::std_specs::vec::axiom_spec_into_iter;

        self.collect().into_iter()
    }
}

} // verus!
