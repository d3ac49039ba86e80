//! Length, capacity, and the operations that act on the container as a whole.
use vstd::prelude::*;

verus! {

/// A container that knows how many items it holds.
pub trait Len {
    /// The number of items held.
    spec fn spec_len(&self) -> nat;

    /// Returns the number of items held.
    fn len(&self) -> (n: usize)
        ensures
            n == self.spec_len(),
    ;
}

/// A container that knows how many items it has room for.
///
/// How much room there is depends on what the allocator handed out, so the
/// contract states only what holds of every answer: the items held fit.
pub trait Capacity: Len {
    /// Returns the number of items the container can hold without growing.
    fn capacity(&self) -> (c: usize)
        ensures
            self.spec_len() <= c,
    ;
}

/// A container that can make room ahead of time.
pub trait Reserve: Len {
    /// Makes room for at least `additional` more items. No item is added or
    /// removed.
    fn reserve(&mut self, additional: usize)
        ensures
            final(self).spec_len() == old(self).spec_len(),
    ;
}

/// A container that can be created with room set aside.
pub trait WithCapacity: Len + Sized {
    /// Creates an empty container with room for `capacity` items.
    fn with_capacity(capacity: usize) -> (out: Self)
        ensures
            out.spec_len() == 0,
    ;
}

/// A container that can drop all its items at once.
pub trait Clear: Len {
    /// Removes every item.
    fn clear(&mut self)
        ensures
            final(self).spec_len() == 0,
    ;
}

} // verus!
