//! The ready-made method bodies, on plain references.
use cc_traits::{
    covariant_item_mut, covariant_item_ref, covariant_key_ref, simple_collection_mut,
    simple_collection_ref, simple_keyed_ref,
};

fn shortest<'short, 'long: 'short>(long: &'long String, _short: &'short u8) -> &'short String {
    covariant_item_ref(long)
}

#[test]
fn covariant_item_ref_hands_back_the_same_reference() {
    let item = String::from("item");
    let narrowed = covariant_item_ref(&item);
    assert!(std::ptr::eq(narrowed, &item));
    assert_eq!(narrowed, "item");
}

#[test]
fn covariant_item_ref_narrows_a_longer_borrow() {
    let item = String::from("long lived");
    let direct = &item;
    {
        let local = 0u8;
        let narrowed = shortest(&item, &local);
        assert!(std::ptr::eq(narrowed, direct));
        assert_eq!(narrowed, "long lived");
    }
    assert_eq!(item, "long lived");
}

#[test]
fn covariant_item_mut_writes_through() {
    let mut item = 7u64;
    {
        let narrowed = covariant_item_mut(&mut item);
        assert_eq!(*narrowed, 7);
        *narrowed = 8;
    }
    assert_eq!(item, 8);
}

#[test]
fn covariant_key_ref_hands_back_the_same_reference() {
    let key = 42usize;
    let narrowed = covariant_key_ref(&key);
    assert!(std::ptr::eq(narrowed, &key));
    assert_eq!(*narrowed, 42);
}

#[test]
fn simple_collection_ref_hands_back_the_same_reference() {
    let item = vec![1u8, 2, 3];
    let plain = simple_collection_ref(&item);
    assert!(std::ptr::eq(plain, &item));
    let again = simple_collection_ref(plain);
    assert!(std::ptr::eq(again, &item));
    assert_eq!(*again, vec![1u8, 2, 3]);
}

#[test]
fn simple_collection_mut_writes_through() {
    let mut item = String::from("a");
    {
        let plain = simple_collection_mut(&mut item);
        assert_eq!(*plain, "a");
        plain.push('b');
    }
    assert_eq!(item, "ab");
}

#[test]
fn simple_keyed_ref_hands_back_the_same_reference() {
    let key = String::from("key");
    let plain = simple_keyed_ref(&key);
    assert!(std::ptr::eq(plain, &key));
    assert_eq!(plain, "key");
}
