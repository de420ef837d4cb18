//! A store-scoped entity arena with guarded handles, and a growable byte
//! buffer with content-preserving resize and secure erase.
//!
//! The arena hands out opaque handles that carry the identity of the store
//! that minted them; a resolver checks that identity before any lookup, so a
//! handle can never be dereferenced against a foreign container. The byte
//! buffer owns at most one backing region at a time, preserves a prefix of
//! its content across resizes, and re-initializes to zeroes on erase with the
//! old region released before the new one is requested.

pub mod arena;
pub mod bytebuf;
pub mod entity;
pub mod globals;

pub use arena::EntityArena;
pub use bytebuf::{AllocError, ByteBuf};
pub use entity::{Entity, EntityKey, StoreId, StoredHandle};
pub use globals::Globals;
