//! The capabilities of a slab of strings.
//!
//! A slab stores each value under an integer key that it picks itself. Keys of
//! removed values are handed out again.
//!
//! What the slab does is not verified here. It is stated, operation by
//! operation, over [`slab_entries`], and the capabilities are proved from those
//! statements.
use crate::access::{removed, Get, GetMut, Insert, Remove};
use crate::collection::{
    Collection, CollectionMut, CollectionRef, SimpleCollectionMut, SimpleCollectionRef,
};
use crate::helpers::{
    covariant_item_mut, covariant_item_ref, simple_collection_mut, simple_collection_ref,
};
use crate::size::{Capacity, Clear, Len, Reserve, WithCapacity};
use slab::Slab;
use vstd::prelude::*;

verus! {

/// Makes `slab::Slab` known to the verifier, as a type whose inside it does not
/// see.
#[verifier::external_type_specification]
#[verifier::external_body]
#[verifier::reject_recursive_types(T)]
pub struct ExSlab<T>(Slab<T>);

/// What a slab holds: each key that denotes a value, with that value.
pub uninterp spec fn slab_entries(s: Slab<String>) -> Map<usize, String>;

/// `Slab::with_capacity`: the new slab holds nothing. How many slots it
/// allocated is the allocator's answer and is not stated. The call does not
/// return if the memory cannot be had.
#[verifier::external_body]
fn slab_with_capacity(capacity: usize) -> (s: Slab<String>)
    ensures
        slab_entries(s) == (Map::<usize, String>::empty()),
{
    Slab::with_capacity(capacity)
}

/// `Slab::len`: the number of keys that denote a value.
#[verifier::external_body]
fn slab_len(s: &Slab<String>) -> (n: usize)
    ensures
        n == slab_entries(*s).dom().len(),
{
    s.len()
}

/// `Slab::capacity`: the slots allocated are at least as many as the values
/// stored.
#[verifier::external_body]
fn slab_capacity(s: &Slab<String>) -> (c: usize)
    ensures
        slab_entries(*s).dom().len() <= c,
{
    s.capacity()
}

/// `Slab::reserve`: the slab holds what it held. How many slots it has
/// afterwards is the allocator's answer and is not stated. The call does not
/// return if the memory cannot be had.
#[verifier::external_body]
fn slab_reserve(s: &mut Slab<String>, additional: usize)
    ensures
        slab_entries(*final(s)) == slab_entries(*old(s)),
{
    s.reserve(additional)
}

/// `Slab::get`: a reference to the value under `key`, or `None` if the key
/// denotes none.
#[verifier::external_body]
fn slab_get(s: &Slab<String>, key: usize) -> (r: Option<&String>)
    ensures
        match r {
            Some(x) => slab_entries(*s).dom().contains(key) && *x == slab_entries(*s)[key],
            None => !slab_entries(*s).dom().contains(key),
        },
{
    s.get(key)
}

/// `Slab::get_mut`: an exclusive reference to the value under `key`, or `None`
/// if the key denotes none. What is written through the reference is what the
/// slab holds under `key` afterwards; nothing else changes.
#[verifier::external_body]
fn slab_get_mut(s: &mut Slab<String>, key: usize) -> (r: Option<&mut String>)
    ensures
        match r {
            Some(m) => {
                &&& slab_entries(*old(s)).dom().contains(key)
                &&& *m == slab_entries(*old(s))[key]
                &&& slab_entries(*final(s)) == slab_entries(*old(s)).insert(key, *final(m))
            },
            None => {
                &&& !slab_entries(*old(s)).dom().contains(key)
                &&& slab_entries(*final(s)) == slab_entries(*old(s))
            },
        },
{
    s.get_mut(key)
}

/// `Slab::insert`: the value is stored under a key that denoted nothing, and
/// that key is returned. Which vacant key it is, the slab decides. The keys
/// that denote a value are finitely many. The call does not return if the slab
/// has to grow and the memory cannot be had.
#[verifier::external_body]
fn slab_insert(s: &mut Slab<String>, val: String) -> (key: usize)
    ensures
        !slab_entries(*old(s)).dom().contains(key),
        slab_entries(*final(s)) == slab_entries(*old(s)).insert(key, val),
        slab_entries(*final(s)).dom().finite(),
{
    s.insert(val)
}

/// `Slab::contains`: whether `key` denotes a value.
#[verifier::external_body]
fn slab_contains(s: &Slab<String>, key: usize) -> (b: bool)
    ensures
        b == slab_entries(*s).dom().contains(key),
{
    s.contains(key)
}

/// `Slab::remove`: the value under `key` is taken out and returned, and the
/// key denotes nothing afterwards. The keys that denote a value are finitely
/// many. The call panics on a key that denotes nothing, so such a key is not
/// admitted.
#[verifier::external_body]
fn slab_remove(s: &mut Slab<String>, key: usize) -> (val: String)
    requires
        slab_entries(*old(s)).dom().contains(key),
    ensures
        val == slab_entries(*old(s))[key],
        slab_entries(*final(s)) == slab_entries(*old(s)).remove(key),
        slab_entries(*final(s)).dom().finite(),
{
    s.remove(key)
}

/// `Slab::clear`: the slab holds nothing afterwards.
#[verifier::external_body]
fn slab_clear(s: &mut Slab<String>)
    ensures
        slab_entries(*final(s)) == (Map::<usize, String>::empty()),
{
    s.clear()
}

impl Collection for Slab<String> {
    type Item = String;
}

impl CollectionRef for Slab<String> {
    type ItemRef<'a> = &'a String;

    open spec fn item_of<'a>(r: &'a String) -> String where Self: 'a {
        *r
    }

    fn upcast_item_ref<'short, 'long: 'short>(r: &'long String) -> (out: &'short String)
        where Self: 'long
    {
        covariant_item_ref(r)
    }
}

impl CollectionMut for Slab<String> {
    type ItemMut<'a> = &'a mut String;

    open spec fn item_of_mut<'a>(r: &'a mut String) -> String where Self: 'a {
        *r
    }

    fn upcast_item_mut<'short, 'long: 'short>(r: &'long mut String) -> (out: &'short mut String)
        where Self: 'long
        ensures
            *final(out) == *final(r),
    {
        covariant_item_mut(r)
    }
}

impl SimpleCollectionRef for Slab<String> {
    fn into_ref<'r>(r: &'r String) -> (out: &'r String)
        where Self: 'r
        ensures
            out == r,
    {
        simple_collection_ref(r)
    }
}

impl SimpleCollectionMut for Slab<String> {
    fn into_mut<'r>(r: &'r mut String) -> (out: &'r mut String)
        where Self: 'r
        ensures
            *final(out) == *final(r),
    {
        simple_collection_mut(r)
    }
}

impl WithCapacity for Slab<String> {
    fn with_capacity(capacity: usize) -> (out: Self)
        ensures
            slab_entries(out) == (Map::<usize, String>::empty()),
    {
        slab_with_capacity(capacity)
    }
}

impl Len for Slab<String> {
    open spec fn spec_len(&self) -> nat {
        slab_entries(*self).dom().len()
    }

    fn len(&self) -> (n: usize) {
        slab_len(self)
    }
}

impl Capacity for Slab<String> {
    fn capacity(&self) -> (c: usize) {
        slab_capacity(self)
    }
}

impl Reserve for Slab<String> {
    fn reserve(&mut self, additional: usize)
        ensures
            slab_entries(*final(self)) == slab_entries(*old(self)),
    {
        slab_reserve(self, additional)
    }
}

impl Get<usize> for Slab<String> {
    open spec fn spec_get(&self, key: usize) -> Option<String> {
        if slab_entries(*self).dom().contains(key) {
            Some(slab_entries(*self)[key])
        } else {
            None
        }
    }

    fn get(&self, key: usize) -> (r: Option<&String>) {
        slab_get(self, key)
    }
}

impl GetMut<usize> for Slab<String> {
    fn get_mut(&mut self, key: usize) -> (r: Option<&mut String>)
        ensures
            match r {
                Some(m) => slab_entries(*final(self)) == slab_entries(*old(self)).insert(
                    key,
                    *final(m),
                ),
                None => slab_entries(*final(self)) == slab_entries(*old(self)),
            },
    {
        proof {
            let held = slab_entries(*self);
            assert forall|v: String| held.dom().contains(key) implies #[trigger] held.insert(
                key,
                v,
            ).dom() == held.dom() by {
                assert(held.insert(key, v).dom() =~= held.dom());
            }
        }
        slab_get_mut(self, key)
    }
}

impl Insert for Slab<String> {
    type Output = usize;

    fn insert(&mut self, element: String) -> (out: usize)
        ensures
            slab_entries(*final(self)) == slab_entries(*old(self)).insert(out, element),
    {
        let key = slab_insert(self, element);
        proof {
            let before = slab_entries(*old(self)).dom();
            let after = slab_entries(*self).dom();
            assert(before =~= after.remove(key));
        }
        key
    }
}

impl Remove<usize> for Slab<String> {
    fn remove(&mut self, key: usize) -> (out: Option<String>) {
        if slab_contains(self, key) {
            let val = slab_remove(self, key);
            proof {
                let before = slab_entries(*old(self)).dom();
                let after = slab_entries(*self).dom();
                assert(before =~= after.insert(key));
            }
            Some(val)
        } else {
            None
        }
    }
}

/// On a slab, taking `key` out leaves the entries there were, without `key`.
pub proof fn lemma_removed_entries(
    before: &Slab<String>,
    key: usize,
    after: &Slab<String>,
    out: Option<String>,
)
    requires
        removed(before, key, after, out),
    ensures
        slab_entries(*after) == slab_entries(*before).remove(key),
{
    let left = slab_entries(*after);
    let right = slab_entries(*before).remove(key);
    assert forall|k: usize| left.dom().contains(k) == right.dom().contains(k) by {
        if k != key {
            assert(after.spec_get(k) == before.spec_get(k));
        }
    }
    assert forall|k: usize| left.dom().contains(k) implies left[k] == right[k] by {
        assert(after.spec_get(k) == before.spec_get(k));
    }
    assert(left =~= right);
}

impl Clear for Slab<String> {
    fn clear(&mut self)
        ensures
            slab_entries(*final(self)) == (Map::<usize, String>::empty()),
            forall|key: usize| final(self).spec_get(key) is None,
    {
        slab_clear(self)
    }
}

} // verus!
