//! Capability traits for containers.
//!
//! Each trait describes one thing a container may be able to do: report its
//! length, look an item up by key, take a new item, give one back. A container
//! implements the subset that matches what it really offers, and generic code
//! asks for exactly the capabilities it needs.
//!
//! Every capability carries a contract. The contracts are stated over two
//! observers, [`Len::spec_len`] and [`Get::spec_get`], so that what one
//! operation promises can be read back through another: the key that `insert`
//! returns is one that `get` finds, and the key that `remove` took out is one
//! that `get` no longer finds. An implementation is verified against the
//! contracts of the capabilities it claims.
pub mod access;
pub mod collection;
pub mod helpers;
pub mod impls;
pub mod keyed;
pub mod laws;
pub mod size;

pub use access::{inserted, removed, Get, GetMut, Insert, Remove};
pub use collection::{
    Collection, CollectionMut, CollectionRef, SimpleCollectionMut, SimpleCollectionRef,
};
pub use helpers::{
    covariant_item_mut, covariant_item_ref, covariant_key_ref, simple_collection_mut,
    simple_collection_ref, simple_keyed_ref,
};
pub use keyed::{Keyed, KeyedRef, SimpleKeyedRef};
pub use size::{Capacity, Clear, Len, Reserve, WithCapacity};
