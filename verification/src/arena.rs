//! An append-only arena: an index-addressed container for entities of one
//! type. Allocation hands out a fresh key; entities are never removed, so
//! every key handed out stays valid for the arena's whole lifetime.

use vstd::prelude::*;

use crate::entity::{Entity, EntityKey};

verus! {

/// Append-only storage for entities, addressed by `EntityKey`. The view is
/// the sequence of entities in allocation order; a key names the position at
/// which its entity was inserted.
pub struct EntityArena {
    entities: Vec<Entity>,
}

impl View for EntityArena {
    type V = Seq<Entity>;

    closed spec fn view(&self) -> Seq<Entity> {
        self.entities@
    }
}

impl EntityArena {
    /// Creates an empty arena.
    pub fn new() -> (r: EntityArena)
        ensures
            r@ == Seq::<Entity>::empty(),
    {
        EntityArena { entities: Vec::new() }
    }

    /// The number of entities allocated so far.
    pub fn len(&self) -> (r: usize)
        ensures
            r == self@.len(),
    {
        self.entities.len()
    }

    /// Appends `entity` and returns its fresh key. The key is unique: it
    /// differs from every key handed out before, because entities are never
    /// removed and each allocation takes the next position.
    pub fn alloc_entity(&mut self, entity: Entity) -> (k: EntityKey)
        ensures
            final(self)@ == old(self)@.push(entity),
            k.index == old(self)@.len(),
    {
        let index = self.entities.len();
        self.entities.push(entity);
        EntityKey { index }
    }

    /// Looks the key up; `None` exactly when the key is out of range, which
    /// cannot happen for a key this arena handed out.
    pub fn get(&self, key: EntityKey) -> (r: Option<&Entity>)
        ensures
            key.index < self@.len() ==> r == Some(&self@[key.index as int]),
            key.index >= self@.len() ==> r is None,
    {
        if key.index < self.entities.len() {
            Some(&self.entities[key.index])
        } else {
            None
        }
    }

    /// Replaces the entity the key names.
    pub fn set(&mut self, key: EntityKey, entity: Entity)
        requires
            key.index < old(self)@.len(),
        ensures
            final(self)@ == old(self)@.update(key.index as int, entity),
    {
        self.entities[key.index] = entity;
    }
}

} // verus!
