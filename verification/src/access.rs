//! Access by key: looking items up, adding them, taking them out.
use crate::collection::{CollectionMut, CollectionRef};
use crate::size::Len;
use vstd::prelude::*;

verus! {

/// A container in which an item is looked up by a key of type `K`.
pub trait Get<K>: CollectionRef {
    /// The item that `key` denotes, if it denotes one.
    spec fn spec_get(&self, key: K) -> Option<Self::Item>;

    /// Returns a reference to the item that `key` denotes, or `None` if it
    /// denotes none.
    fn get(&self, key: K) -> (r: Option<Self::ItemRef<'_>>)
        ensures
            match r {
                Some(x) => self.spec_get(key) == Some(Self::item_of(x)),
                None => self.spec_get(key) is None,
            },
    ;
}

/// A container in which an item is reached by key for mutation in place.
pub trait GetMut<K>: Get<K> + CollectionMut + Len {
    /// Returns an exclusive reference to the item that `key` denotes, or `None`
    /// if it denotes none.
    ///
    /// Whatever is written through the reference, no item comes or goes: `key`
    /// goes on denoting an item, and every other key denotes what it did.
    fn get_mut(&mut self, key: K) -> (r: Option<Self::ItemMut<'_>>)
        ensures
            match r {
                Some(m) => old(self).spec_get(key) == Some(Self::item_of_mut(m)),
                None => old(self).spec_get(key) is None,
            },
            r is Some <==> final(self).spec_get(key) is Some,
            forall|k: K| k != key ==> final(self).spec_get(k) == old(self).spec_get(k),
            final(self).spec_len() == old(self).spec_len(),
    ;
}

/// What [`Insert::insert`] does: `after` is `before` with `element` under
/// `key`. The key denoted nothing before, every other key denotes what it did,
/// and there is one item more.
pub open spec fn inserted<K, C: Get<K> + Len + ?Sized>(
    before: &C,
    element: C::Item,
    after: &C,
    key: K,
) -> bool {
    &&& before.spec_get(key) is None
    &&& after.spec_get(key) == Some(element)
    &&& forall|k: K| k != key ==> #[trigger] after.spec_get(k) == before.spec_get(k)
    &&& after.spec_len() == before.spec_len() + 1
}

/// A container that takes a new item and says under which key it did.
pub trait Insert: Get<<Self as Insert>::Output> + Len {
    /// The key handed back for the new item.
    type Output;

    /// Adds `element` and returns the key that denotes it from now on.
    fn insert(&mut self, element: Self::Item) -> (out: Self::Output)
        ensures
            inserted(&*old(self), element, &*final(self), out),
    ;
}

/// What [`Remove::remove`] does: `out` is what `key` denoted in `before`, and in
/// `after` it denotes nothing. Every other key denotes what it did. If an item
/// was taken out there is one item less; if none was, the container is as it
/// was.
pub open spec fn removed<K, C: Get<K> + Len + ?Sized>(
    before: &C,
    key: K,
    after: &C,
    out: Option<C::Item>,
) -> bool {
    &&& out == before.spec_get(key)
    &&& after.spec_get(key) is None
    &&& forall|k: K| k != key ==> #[trigger] after.spec_get(k) == before.spec_get(k)
    &&& out is Some ==> after.spec_len() + 1 == before.spec_len()
    &&& out is None ==> after == before
}

/// A container out of which an item is taken by key.
pub trait Remove<K>: Get<K> + Len {
    /// Takes out the item that `key` denotes and returns it, or returns `None`
    /// and changes nothing if `key` denotes none.
    fn remove(&mut self, key: K) -> (out: Option<Self::Item>)
        ensures
            removed(&*old(self), key, &*final(self), out),
    ;
}

} // verus!
