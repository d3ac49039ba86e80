//! The base capability and the two families of item references.
use vstd::prelude::*;

verus! {

/// A container of items of one type.
pub trait Collection {
    /// The type of the items held.
    type Item;
}

/// A container that lends out shared references to its items.
///
/// `ItemRef<'a>` is a reference to an item that is valid for at most `'a`. It
/// need not be a plain `&'a Item`: a guard or a view qualifies as well. Whatever
/// its shape, it must be covariant in `'a`, and `upcast_item_ref` is the witness.
pub trait CollectionRef: Collection {
    type ItemRef<'a> where Self: 'a;

    /// The item that `r` refers to.
    spec fn item_of<'a>(r: Self::ItemRef<'a>) -> Self::Item where Self: 'a;

    /// Narrows the lifetime of an item reference. The reference itself is
    /// handed back untouched.
    fn upcast_item_ref<'short, 'long: 'short>(r: Self::ItemRef<'long>) -> (out: Self::ItemRef<'short>)
        where Self: 'long
        ensures
            out == r,
    ;
}

/// A container that lends out exclusive references to its items.
///
/// While an `ItemMut<'a>` is alive no other reference into the container can be.
pub trait CollectionMut: Collection {
    type ItemMut<'a> where Self: 'a;

    /// The item that `r` refers to, as it is now.
    spec fn item_of_mut<'a>(r: Self::ItemMut<'a>) -> Self::Item where Self: 'a;

    /// Narrows the lifetime of an exclusive item reference. The item referred to
    /// is the same, with the same value.
    ///
    /// An implementation whose `ItemMut<'a>` is `&'a mut Item` states in
    /// addition that what is written through `out` is written through `r`.
    fn upcast_item_mut<'short, 'long: 'short>(r: Self::ItemMut<'long>) -> (out: Self::ItemMut<'short>)
        where Self: 'long
        ensures
            Self::item_of_mut(out) == Self::item_of_mut(r),
    ;
}

/// A container whose shared item references are ordinary references.
pub trait SimpleCollectionRef: CollectionRef {
    /// Turns an item reference into a plain reference to the same item.
    fn into_ref<'r>(r: Self::ItemRef<'r>) -> (out: &'r Self::Item)
        where Self: 'r
        ensures
            *out == Self::item_of(r),
    ;
}

/// A container whose exclusive item references are ordinary references.
pub trait SimpleCollectionMut: CollectionMut {
    /// Turns an exclusive item reference into a plain one to the same item.
    ///
    /// An implementation whose `ItemMut<'a>` is `&'a mut Item` states in
    /// addition that what is written through `out` is written through `r`.
    fn into_mut<'r>(r: Self::ItemMut<'r>) -> (out: &'r mut Self::Item)
        where Self: 'r
        ensures
            *out == Self::item_of_mut(r),
    ;
}

} // verus!
