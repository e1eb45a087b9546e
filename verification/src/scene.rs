//! The world: entities, models and lights, each addressed by a handle.

use vstd::prelude::*;

use crate::entity::Entity;

verus! {

/// The contents of the world. A handle is an item's position in its list,
/// as a `u32`.
pub struct Scene<M, L> {
    pub entities: Vec<Entity>,
    pub models: Vec<M>,
    pub lights: Vec<L>,
}

impl<M, L> Scene<M, L> {
    /// A scene holding the given lists.
    pub fn new(entities: Vec<Entity>, models: Vec<M>, lights: Vec<L>) -> (s: Self)
        ensures
            s.entities@ == entities@,
            s.models@ == models@,
            s.lights@ == lights@,
    {
        Self { entities, models, lights }
    }

    /// The scene with nothing in it.
    pub fn empty() -> (s: Self)
        ensures
            s.entities@ == Seq::<Entity>::empty(),
            s.models@ == Seq::<M>::empty(),
            s.lights@ == Seq::<L>::empty(),
    {
        Self { entities: Vec::new(), models: Vec::new(), lights: Vec::new() }
    }

    /// Appends `entity` and returns its handle: the number of entities
    /// before it, as a `u32`.
    pub fn add_entity(&mut self, entity: Entity) -> (handle: u32)
        ensures
            handle == old(self).entities@.len() as u32,
            final(self).entities@ == old(self).entities@.push(entity),
            final(self).models@ == old(self).models@,
            final(self).lights@ == old(self).lights@,
    {
        let handle = self.entities.len();
        self.entities.push(entity);
        handle as u32
    }

    /// Appends `model` and returns its handle: the number of models before
    /// it, as a `u32`.
    pub fn add_model(&mut self, model: M) -> (handle: u32)
        ensures
            handle == old(self).models@.len() as u32,
            final(self).models@ == old(self).models@.push(model),
            final(self).entities@ == old(self).entities@,
            final(self).lights@ == old(self).lights@,
    {
        let handle = self.models.len();
        self.models.push(model);
        handle as u32
    }

    /// Adds every model of `models`, in order.
    pub fn add_models(&mut self, models: Vec<M>)
        ensures
            final(self).models@ == old(self).models@ + models@,
            final(self).entities@ == old(self).entities@,
            final(self).lights@ == old(self).lights@,
    {
        let ghost before = self.models@;
        let ghost all = models@;
        for model in it: models.into_iter()
            invariant
                it.seq() == all,
                self.models@ == before + all.take(it.index() as int),
                self.entities@ == old(self).entities@,
                self.lights@ == old(self).lights@,
        {
            let ghost k = it.index();
            self.add_model(model);
            assert(all.take(k + 1) =~= all.take(k as int).push(model));
        }
        assert(all.take(all.len() as int) =~= all);
    }

    /// Appends `light` and returns its handle: the number of lights before
    /// it, as a `u32`.
    pub fn add_light(&mut self, light: L) -> (handle: u32)
        ensures
            handle == old(self).lights@.len() as u32,
            final(self).lights@ == old(self).lights@.push(light),
            final(self).entities@ == old(self).entities@,
            final(self).models@ == old(self).models@,
    {
        let handle = self.lights.len();
        self.lights.push(light);
        handle as u32
    }
}

/// A handle names the item it was returned for, and keeps naming it however
/// many items are added after it, as long as fewer than 2^32 items stood
/// before it.
pub proof fn lemma_handle_names_item<T>(before: Seq<T>, item: T, later: Seq<T>)
    requires
        before.len() <= u32::MAX,
    ensures
        (before.push(item) + later)[(before.len() as u32) as int] == item,
{
    assert((before.len() as u32) as int == before.len());
}

/// Two items added one after the other get consecutive handles, as long as
/// the first is not the 2^32-th.
pub proof fn lemma_handles_consecutive<T>(before: Seq<T>, first: T)
    requires
        before.len() < u32::MAX,
    ensures
        (before.push(first).len() as u32) == (before.len() as u32) + 1,
{
}

/// Adding items leaves every earlier item at its handle.
pub proof fn lemma_adding_keeps_items<T>(before: Seq<T>, later: Seq<T>, i: int)
    requires
        0 <= i < before.len(),
    ensures
        (before + later)[i] == before[i],
{
}

} // verus!
