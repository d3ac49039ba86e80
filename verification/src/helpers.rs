//! Ready-made bodies for the methods that are the same in every adapter whose
//! references are ordinary references.
//!
//! An ordinary reference is covariant in its lifetime, so narrowing it is the
//! identity; and turning it into a plain reference is the identity too. An
//! adapter whose reference family is `&'a T` or `&'a mut T` calls the helper of
//! the same purpose and is done. For any other family the call does not type
//! check.
use vstd::prelude::*;

verus! {

/// The body of `CollectionRef::upcast_item_ref` where `ItemRef<'a>` is `&'a T`.
pub fn covariant_item_ref<'short, 'long: 'short, T>(r: &'long T) -> (out: &'short T)
    ensures
        out == r,
{
    r
}

/// The body of `CollectionMut::upcast_item_mut` where `ItemMut<'a>` is
/// `&'a mut T`. The reference handed back sees the value that `r` saw, and what
/// is written through it is written through `r`.
pub fn covariant_item_mut<'short, 'long: 'short, T>(r: &'long mut T) -> (out: &'short mut T)
    ensures
        *out == *old(r),
        *final(out) == *final(r),
{
    r
}

/// The body of `KeyedRef::upcast_key_ref` where `KeyRef<'a>` is `&'a K`.
pub fn covariant_key_ref<'short, 'long: 'short, K>(r: &'long K) -> (out: &'short K)
    ensures
        out == r,
{
    r
}

/// The body of `SimpleCollectionRef::into_ref` where `ItemRef<'a>` is `&'a T`.
pub fn simple_collection_ref<'r, T>(r: &'r T) -> (out: &'r T)
    ensures
        out == r,
{
    r
}

/// The body of `SimpleCollectionMut::into_mut` where `ItemMut<'a>` is
/// `&'a mut T`. The reference handed back sees the value that `r` saw, and what
/// is written through it is written through `r`.
pub fn simple_collection_mut<'r, T>(r: &'r mut T) -> (out: &'r mut T)
    ensures
        *out == *old(r),
        *final(out) == *final(r),
{
    r
}

/// The body of `SimpleKeyedRef::into_ref` where `KeyRef<'a>` is `&'a K`.
pub fn simple_keyed_ref<'r, K>(r: &'r K) -> (out: &'r K)
    ensures
        out == r,
{
    r
}

} // verus!
