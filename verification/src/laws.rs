//! What follows from the contracts of several capabilities taken together.
//!
//! The lemmas speak of containers before and after an operation, tied together
//! by [`inserted`] and [`removed`], the relations that `insert` and `remove`
//! establish. They hold of every container that implements the capabilities.
use crate::access::{inserted, removed, Get};
use crate::size::Len;
use vstd::prelude::*;

verus! {

/// An item is found under the key that its insertion returned. Removing that
/// key hands the item back; afterwards the key denotes nothing, and the
/// container has the length and answers every lookup as it did before the
/// insertion.
pub proof fn lemma_insert_then_remove<K, C: Get<K> + Len>(
    c0: &C,
    element: C::Item,
    c1: &C,
    key: K,
    c2: &C,
    out: Option<C::Item>,
)
    requires
        inserted(c0, element, c1, key),
        removed(c1, key, c2, out),
    ensures
        c1.spec_get(key) == Some(element),
        out == Some(element),
        c2.spec_get(key) is None,
        forall|k: K| c2.spec_get(k) == c0.spec_get(k),
        c2.spec_len() == c0.spec_len(),
{
    assert forall|k: K| c2.spec_get(k) == c0.spec_get(k) by {
        if k != key {
            assert(c2.spec_get(k) == c1.spec_get(k));
            assert(c1.spec_get(k) == c0.spec_get(k));
        }
    }
}

/// Removing a key that denotes nothing returns nothing and leaves the container
/// as it was: the same length, and every key denotes what it did.
pub proof fn lemma_remove_absent<K, C: Get<K> + Len>(
    c0: &C,
    key: K,
    c1: &C,
    out: Option<C::Item>,
)
    requires
        removed(c0, key, c1, out),
        c0.spec_get(key) is None,
    ensures
        out is None,
        c1 == c0,
        c1.spec_len() == c0.spec_len(),
        forall|k: K| c1.spec_get(k) == c0.spec_get(k),
{
}

/// A key that has been removed denotes nothing: removing it a second time
/// returns nothing and changes nothing.
pub proof fn lemma_remove_twice<K, C: Get<K> + Len>(
    c0: &C,
    key: K,
    c1: &C,
    first: Option<C::Item>,
    c2: &C,
    second: Option<C::Item>,
)
    requires
        removed(c0, key, c1, first),
        removed(c1, key, c2, second),
    ensures
        second is None,
        c2 == c1,
{
}

/// A run of insertions: `states[i + 1]` is `states[i]` after `elements[i]` was
/// inserted and `keys[i]` came back.
pub open spec fn insert_run<K, C: Get<K> + Len>(
    states: Seq<C>,
    elements: Seq<C::Item>,
    keys: Seq<K>,
) -> bool {
    &&& states.len() == elements.len() + 1
    &&& keys.len() == elements.len()
    &&& forall|i: int|
        0 <= i < elements.len() ==> inserted(
            &#[trigger] states[i],
            elements[i],
            &states[i + 1],
            keys[i],
        )
}

/// After any run of insertions every key that came back still denotes the item
/// it was returned for, no key came back twice, and the container has grown by
/// the number of insertions.
pub proof fn lemma_insert_run_keeps_items<K, C: Get<K> + Len>(
    states: Seq<C>,
    elements: Seq<C::Item>,
    keys: Seq<K>,
)
    requires
        insert_run(states, elements, keys),
    ensures
        forall|i: int|
            0 <= i < keys.len() ==> states.last().spec_get(#[trigger] keys[i]) == Some(
                elements[i],
            ),
        forall|i: int, j: int| 0 <= i < j < keys.len() ==> keys[i] != keys[j],
        states.last().spec_len() == states[0].spec_len() + elements.len(),
    decreases elements.len(),
{
    let n = elements.len() as int;
    if n > 0 {
        let last_key = keys[n - 1];
        let last_element = elements[n - 1];
        let head_states = states.drop_last();
        let head_elements = elements.drop_last();
        let head_keys = keys.drop_last();
        assert(insert_run(head_states, head_elements, head_keys)) by {
            assert forall|i: int| 0 <= i < head_elements.len() implies inserted(
                &#[trigger] head_states[i],
                head_elements[i],
                &head_states[i + 1],
                head_keys[i],
            ) by {
                assert(inserted(&states[i], elements[i], &states[i + 1], keys[i]));
            }
        }
        lemma_insert_run_keeps_items(head_states, head_elements, head_keys);
        assert(head_states.last() == states[n - 1]);
        assert(inserted(&states[n - 1], last_element, &states[n], last_key));
        assert forall|i: int| 0 <= i < keys.len() implies states.last().spec_get(
            #[trigger] keys[i],
        ) == Some(elements[i]) by {
            if i < n - 1 {
                assert(head_keys[i] == keys[i]);
                assert(head_elements[i] == elements[i]);
                assert(states[n - 1].spec_get(keys[i]) == Some(elements[i]));
                assert(keys[i] != last_key);
            }
        }
        assert forall|i: int, j: int| 0 <= i < j < keys.len() implies keys[i] != keys[j] by {
            assert(head_keys[i] == keys[i]);
            if j < n - 1 {
                assert(head_keys[j] == keys[j]);
            } else {
                assert(states[n - 1].spec_get(keys[i]) == Some(elements[i]));
            }
        }
    }
}

/// After a run of insertions into a container in which no key denoted anything,
/// a key denotes an item exactly if it came back from one of the insertions.
pub proof fn lemma_insert_run_issues_keys<K, C: Get<K> + Len>(
    states: Seq<C>,
    elements: Seq<C::Item>,
    keys: Seq<K>,
    key: K,
)
    requires
        insert_run(states, elements, keys),
        forall|k: K| states[0].spec_get(k) is None,
    ensures
        states.last().spec_get(key) is Some <==> keys.contains(key),
    decreases elements.len(),
{
    let n = elements.len() as int;
    if n > 0 {
        let head_states = states.drop_last();
        let head_elements = elements.drop_last();
        let head_keys = keys.drop_last();
        assert(insert_run(head_states, head_elements, head_keys)) by {
            assert forall|i: int| 0 <= i < head_elements.len() implies inserted(
                &#[trigger] head_states[i],
                head_elements[i],
                &head_states[i + 1],
                head_keys[i],
            ) by {
                assert(inserted(&states[i], elements[i], &states[i + 1], keys[i]));
            }
        }
        assert(head_states[0] == states[0]);
        lemma_insert_run_issues_keys(head_states, head_elements, head_keys, key);
        assert(head_states.last() == states[n - 1]);
        assert(inserted(&states[n - 1], elements[n - 1], &states[n], keys[n - 1]));
        if key == keys[n - 1] {
            assert(keys.contains(key));
        } else {
            assert(states[n].spec_get(key) == states[n - 1].spec_get(key));
            if head_keys.contains(key) {
                let i = choose|i: int| 0 <= i < head_keys.len() && head_keys[i] == key;
                assert(keys[i] == key);
            }
            if keys.contains(key) {
                let i = choose|i: int| 0 <= i < keys.len() && keys[i] == key;
                assert(head_keys[i] == key);
            }
        }
    } else {
        assert(states.last() == states[0]);
    }
}

} // verus!
