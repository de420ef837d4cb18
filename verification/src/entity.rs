//! The plain values that the arena and its resolver work with: store
//! identities, entity keys, the stored payload, and the handle that pairs a
//! key with the identity of the store that minted it.

use vstd::prelude::*;

verus! {

/// Identity of one container (store) instance. Two containers never share an
/// identifier during their overlapping lifetimes; the caller that creates
/// stores is responsible for picking distinct identifiers.
#[derive(Clone, Copy, PartialEq, Eq, Structural, Debug)]
pub struct StoreId {
    pub id: usize,
}

impl StoreId {
    pub fn new(id: usize) -> (r: StoreId)
        ensures
            r.id == id,
    {
        StoreId { id }
    }
}

/// Index of one entity inside an arena. A key is stable for the lifetime of
/// the entity it names; entities are never removed, so keys are never reused.
#[derive(Clone, Copy, PartialEq, Eq, Structural, Debug)]
pub struct EntityKey {
    pub index: usize,
}

/// The payload held by the arena: a value together with a mutability flag.
/// The arena and resolver are agnostic to what the fields mean.
#[derive(Clone, Copy, PartialEq, Eq, Structural, Debug)]
pub struct Entity {
    pub value: u64,
    pub mutable: bool,
}

impl Entity {
    pub fn new(value: u64, mutable: bool) -> (r: Entity)
        ensures
            r.value == value,
            r.mutable == mutable,
    {
        Entity { value, mutable }
    }
}

/// A handle to a stored entity: the entity's key guarded by the identity of
/// the store that minted it. The guard is checked on every resolution, so a
/// handle can never be dereferenced against a foreign store's arena.
#[derive(Clone, Copy, PartialEq, Eq, Structural, Debug)]
pub struct StoredHandle {
    store: StoreId,
    key: EntityKey,
}

impl StoredHandle {
    /// The identity of the store that minted this handle.
    pub closed spec fn store(&self) -> StoreId {
        self.store
    }

    /// The arena key this handle names.
    pub closed spec fn key(&self) -> EntityKey {
        self.key
    }

    pub fn new(store: StoreId, key: EntityKey) -> (r: StoredHandle)
        ensures
            r.store() == store,
            r.key() == key,
    {
        StoredHandle { store, key }
    }

    /// Returns the key only when the presented guard is the identity of the
    /// store that minted this handle; a mismatched guard yields `None`.
    pub fn entity_index(&self, guard: StoreId) -> (r: Option<EntityKey>)
        ensures
            self.store() == guard ==> r == Some(self.key()),
            self.store() != guard ==> r is None,
    {
        if self.store.id != guard.id {
            return None;
        }
        Some(self.key)
    }
}

} // verus!
