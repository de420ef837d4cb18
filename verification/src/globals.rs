//! The store-scoped resolver: wraps an entity arena together with the
//! identity of its owning store, and checks that identity before every
//! lookup. Presenting a handle minted by a different store, or a key the
//! arena never handed out, is an unrecoverable misuse: the checked entry
//! points (`entity_index` on the handle, `try_resolve` here) report it as
//! `None`, and the direct entry points (`resolve`, `resolve_mut_with`)
//! exclude it by precondition, mirroring a design in which such a call
//! terminates the program.

use vstd::pervasive::unreached;
use vstd::prelude::*;

use crate::arena::EntityArena;
use crate::entity::{Entity, EntityKey, StoreId, StoredHandle};

verus! {

/// What resolving `handle` against a resolver of identity `store` over the
/// entities `entities` yields: the stored entity when the handle was minted
/// by that store and its key is in range, and nothing otherwise.
pub open spec fn lookup(store: StoreId, entities: Seq<Entity>, handle: StoredHandle) -> Option<
    Entity,
> {
    if handle.store() == store && handle.key().index < entities.len() {
        Some(entities[handle.key().index as int])
    } else {
        None
    }
}

/// An entity arena owned by one store. Handles minted here carry the store's
/// identity and are accepted back only when that identity matches.
pub struct Globals {
    store_id: StoreId,
    arena: EntityArena,
}

impl Globals {
    /// The identity of the owning store.
    pub closed spec fn store(&self) -> StoreId {
        self.store_id
    }

    /// The entities held, in allocation order.
    pub closed spec fn entities(&self) -> Seq<Entity> {
        self.arena@
    }

    /// Creates an empty arena owned by the store with identity `store_id`.
    pub fn new(store_id: StoreId) -> (r: Globals)
        ensures
            r.store() == store_id,
            r.entities() == Seq::<Entity>::empty(),
    {
        Globals { store_id, arena: EntityArena::new() }
    }

    /// The owning store's identity, for minting handles.
    pub fn store_id(&self) -> (r: StoreId)
        ensures
            r == self.store(),
    {
        self.store_id
    }

    /// Inserts `entity` and returns its fresh key. Never fails; the key is
    /// distinct from every key this arena handed out before.
    pub fn alloc_entity(&mut self, entity: Entity) -> (k: EntityKey)
        ensures
            final(self).store() == old(self).store(),
            final(self).entities() == old(self).entities().push(entity),
            k.index == old(self).entities().len(),
    {
        self.arena.alloc_entity(entity)
    }

    /// Mints the handle for a key this arena handed out.
    pub fn handle_of(&self, key: EntityKey) -> (h: StoredHandle)
        ensures
            h.store() == self.store(),
            h.key() == key,
    {
        StoredHandle::new(self.store_id, key)
    }

    /// Checks that `stored` was minted by this store and unwraps its key.
    /// A mismatch is a fatal misuse, excluded here by precondition.
    fn unwrap_stored(&self, stored: &StoredHandle) -> (k: EntityKey)
        requires
            stored.store() == self.store(),
        ensures
            k == stored.key(),
    {
        match stored.entity_index(self.store_id) {
            Some(k) => k,
            None => unreached(),
        }
    }

    /// Resolves a handle minted by this store to a copy of its entity. The
    /// precondition demands exactly what makes the lookup answer: the handle
    /// carries this store's identity and a key the arena handed out.
    pub fn resolve(&self, handle: &StoredHandle) -> (e: Entity)
        requires
            lookup(self.store(), self.entities(), *handle) is Some,
        ensures
            Some(e) == lookup(self.store(), self.entities(), *handle),
    {
        let key = self.unwrap_stored(handle);
        match self.arena.get(key) {
            Some(e) => *e,
            None => unreached(),
        }
    }

    /// Resolves a handle if it was minted by this store and its key is in
    /// range, and reports `None` otherwise — the checked counterpart of
    /// `resolve`, for callers that cannot establish its precondition and
    /// must treat a mismatch as fatal themselves.
    pub fn try_resolve(&self, handle: &StoredHandle) -> (r: Option<Entity>)
        ensures
            r == lookup(self.store(), self.entities(), *handle),
    {
        match handle.entity_index(self.store_id) {
            None => None,
            Some(key) => match self.arena.get(key) {
                Some(e) => Some(*e),
                None => None,
            },
        }
    }

    /// Grants `f` one scoped mutation window over the entity the handle
    /// names: `f` receives the stored entity and returns its replacement
    /// together with a result, which is forwarded. The replacement is stored
    /// before this call returns, so the mutation is visible to every later
    /// resolution of the same handle.
    pub fn resolve_mut_with<R, F: FnOnce(Entity) -> (Entity, R)>(
        &mut self,
        handle: &StoredHandle,
        f: F,
    ) -> (r: R)
        requires
            lookup(old(self).store(), old(self).entities(), *handle) is Some,
            call_requires(f, (lookup(old(self).store(), old(self).entities(), *handle)->Some_0,)),
        ensures
            final(self).store() == old(self).store(),
            exists|new_e: Entity|
                {
                    &&& #[trigger] call_ensures(
                        f,
                        (lookup(old(self).store(), old(self).entities(), *handle)->Some_0,),
                        (new_e, r),
                    )
                    &&& final(self).entities() == old(self).entities().update(
                        handle.key().index as int,
                        new_e,
                    )
                },
    {
        let key = self.unwrap_stored(handle);
        let entity = match self.arena.get(key) {
            Some(e) => *e,
            None => unreached(),
        };
        let (new_entity, result) = f(entity);
        self.arena.set(key, new_entity);
        result
    }
}

/// Law: an entity inserted by `alloc` is returned by `resolve` of the fresh
/// handle. After `alloc` of `e` into an arena holding `entities`, the new key
/// names position `entities.len()`; a handle pairing that key with the
/// owner's identity looks up to exactly `e`.
pub proof fn lemma_alloc_then_resolve(entities: Seq<Entity>, e: Entity, h: StoredHandle)
    requires
        h.key().index == entities.len(),
    ensures
        lookup(h.store(), entities.push(e), h) == Some(e),
{
}

/// Law: a handle minted by one store is rejected by a resolver owned by any
/// other store, whatever the arena holds.
pub proof fn lemma_wrong_owner_rejected(owner: StoreId, entities: Seq<Entity>, h: StoredHandle)
    requires
        h.store() != owner,
    ensures
        lookup(owner, entities, h) is None,
{
}

/// Law: a mutation through a handle is durably visible. After the entity the
/// handle names is replaced by `new_e`, resolving the same handle against the
/// same owner yields `new_e`.
pub proof fn lemma_mutation_visible(
    owner: StoreId,
    entities: Seq<Entity>,
    h: StoredHandle,
    new_e: Entity,
)
    requires
        lookup(owner, entities, h) is Some,
    ensures
        lookup(owner, entities.update(h.key().index as int, new_e), h) == Some(new_e),
{
}

} // verus!
