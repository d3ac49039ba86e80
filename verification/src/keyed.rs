//! Keys, and the family of key references.
use crate::collection::Collection;
use vstd::prelude::*;

verus! {

/// A container whose items are found by keys of one type.
pub trait Keyed: Collection {
    /// The type of the keys.
    type Key;
}

/// A keyed container that lends out shared references to its keys.
///
/// `KeyRef<'a>` must be covariant in `'a`, and `upcast_key_ref` is the witness.
pub trait KeyedRef: Keyed {
    type KeyRef<'a> where Self: 'a;

    /// The key that `r` refers to.
    spec fn key_of<'a>(r: Self::KeyRef<'a>) -> Self::Key where Self: 'a;

    /// Narrows the lifetime of a key reference. The reference itself is handed
    /// back untouched.
    fn upcast_key_ref<'short, 'long: 'short>(r: Self::KeyRef<'long>) -> (out: Self::KeyRef<'short>)
        where Self: 'long
        ensures
            out == r,
    ;
}

/// A keyed container whose key references are ordinary references.
pub trait SimpleKeyedRef: KeyedRef {
    /// Turns a key reference into a plain reference to the same key.
    fn into_ref<'r>(r: Self::KeyRef<'r>) -> (out: &'r Self::Key)
        where Self: 'r
        ensures
            *out == Self::key_of(r),
    ;
}

} // verus!
