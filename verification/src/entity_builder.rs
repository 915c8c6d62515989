//! A utility to build an entity's components.

use crate::component::{find_slot, put_component, slot_of, with_component, Component, ComponentValue};
use crate::entity::EntityId;
use crate::world::World;
use vstd::prelude::*;

verus! {

/// A utility to build an entity's components.
///
/// An `EntityBuilder` can be reused to avoid repeated allocations.
pub struct EntityBuilder {
    components: Vec<ComponentValue>,
}

impl View for EntityBuilder {
    type V = Seq<ComponentValue>;

    /// The components gathered so far.
    closed spec fn view(&self) -> Seq<ComponentValue> {
        self.components@
    }
}

impl Default for EntityBuilder {
    fn default() -> (r: Self)
        ensures
            r@.len() == 0,
    {
        EntityBuilder { components: Vec::new() }
    }
}

impl EntityBuilder {
    pub fn new() -> (r: Self)
        ensures
            r@.len() == 0,
    {
        EntityBuilder { components: Vec::new() }
    }

    /// Inserts a new component for the entity.
    ///
    /// If the entity builder already contains the component,
    /// then the previous value is overriden.
    pub fn add<T: Component>(&mut self, component: T)
        ensures
            final(self)@ == with_component(old(self)@, component.spec_wrap()),
    {
        put_component(&mut self.components, component.wrap());
    }

    /// Determines whether the builder has a component
    /// of type T.
    pub fn has<T: Component>(&self) -> (r: bool)
        ensures
            r == slot_of(self@, T::spec_kind(), 0) is Some,
    {
        find_slot(&self.components, T::component_kind()).is_some()
    }

    /// Spawns the entity builder into an `Ecs`.
    pub fn spawn_into(&mut self, ecs: &mut World) -> (r: EntityId)
        requires
            old(ecs).wf(),
            old(ecs).spec_can_spawn(),
        ensures
            final(ecs).wf(),
            !old(ecs).contains(r),
            final(ecs).contains(r),
            final(ecs).components_of(r) == old(self)@,
            old(ecs).same_but(*final(ecs), r),
            final(self)@.len() == 0,
    {
        ecs.spawn_builder(self)
    }

    /// Hands out the components gathered and leaves the builder empty.
    pub fn take(&mut self) -> (r: Vec<ComponentValue>)
        ensures
            r@ == old(self)@,
            final(self)@.len() == 0,
    {
        let mut components: Vec<ComponentValue> = Vec::new();
        std::mem::swap(&mut components, &mut self.components);
        components
    }

    /// Resets the builder, clearing all components.
    pub fn reset(&mut self)
        ensures
            final(self)@.len() == 0,
    {
        self.components.clear();
    }
}

} // verus!
