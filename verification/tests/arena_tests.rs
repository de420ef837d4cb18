use store_core::{Entity, Globals, StoreId, StoredHandle};

#[test]
fn alloc_then_resolve_returns_the_entity() {
    let mut globals = Globals::new(StoreId::new(1));
    let entity = Entity::new(42, true);
    let key = globals.alloc_entity(entity);
    let handle = globals.handle_of(key);
    assert_eq!(globals.resolve(&handle), entity);
}

#[test]
fn fresh_keys_are_distinct_and_stable() {
    let mut globals = Globals::new(StoreId::new(3));
    let first = Entity::new(10, false);
    let second = Entity::new(20, true);
    let k1 = globals.alloc_entity(first);
    let k2 = globals.alloc_entity(second);
    assert_ne!(k1, k2);
    assert_eq!(globals.resolve(&globals.handle_of(k1)), first);
    assert_eq!(globals.resolve(&globals.handle_of(k2)), second);
}

#[test]
fn wrong_owner_is_rejected() {
    let mut g1 = Globals::new(StoreId::new(1));
    let g2 = Globals::new(StoreId::new(2));
    let key = g1.alloc_entity(Entity::new(5, false));
    let handle = g1.handle_of(key);
    // The unchecked entry points treat this as fatal; the checked ones
    // report the rejection as `None`.
    assert!(handle.entity_index(g2.store_id()).is_none());
    assert!(g2.try_resolve(&handle).is_none());
}

#[test]
fn matching_owner_unwraps_the_key() {
    let g = Globals::new(StoreId::new(7));
    let handle = StoredHandle::new(g.store_id(), store_core::EntityKey { index: 0 });
    assert_eq!(
        handle.entity_index(g.store_id()),
        Some(store_core::EntityKey { index: 0 })
    );
}

#[test]
fn out_of_range_key_is_rejected() {
    let g = Globals::new(StoreId::new(4));
    let handle = StoredHandle::new(g.store_id(), store_core::EntityKey { index: 9 });
    assert!(g.try_resolve(&handle).is_none());
}

#[test]
fn mutation_is_visible_to_later_resolve() {
    let mut globals = Globals::new(StoreId::new(1));
    let key = globals.alloc_entity(Entity::new(100, true));
    let handle = globals.handle_of(key);
    let previous = globals.resolve_mut_with(&handle, |e: Entity| {
        (Entity::new(e.value + 1, e.mutable), e.value)
    });
    assert_eq!(previous, 100);
    assert_eq!(globals.resolve(&handle), Entity::new(101, true));
}

#[test]
fn two_arenas_scenario() {
    let mut a1 = Globals::new(StoreId::new(1));
    let a2 = Globals::new(StoreId::new(2));
    let entity = Entity::new(77, false);
    let key = a1.alloc_entity(entity);
    let handle = a1.handle_of(key);
    // Against the foreign resolver the handle is rejected (fatal in the
    // unchecked API, `None` in the checked one)...
    assert!(a2.try_resolve(&handle).is_none());
    // ...and against its own resolver it succeeds.
    assert_eq!(a1.resolve(&handle), entity);
    assert_eq!(a1.try_resolve(&handle), Some(entity));
}
