use tiger_score::error::ErrorCode;
use tiger_score::identity::IdentityKey;
use tiger_score::profile::UserProfile;
use tiger_score::store::ProfileStore;

fn key(tag: u8) -> IdentityKey {
    IdentityKey::new_from_array([tag; 32])
}

#[test]
fn empty_store_holds_nothing() {
    let store = ProfileStore::new();
    assert_eq!(store.get(&key(0)), None);
    assert_eq!(store.get(&key(1)), None);
}

#[test]
fn create_if_absent_stores_once() {
    let mut store = ProfileStore::new();
    let first = UserProfile::new(key(1), key(101));
    assert_eq!(store.create_if_absent(first), Ok(()));
    assert_eq!(store.get(&key(1)), Some(first));

    let mut again = UserProfile::new(key(1), key(102));
    again.has_nft = true;
    assert_eq!(store.create_if_absent(again), Err(ErrorCode::UserProfileAlreadyExists));
    assert_eq!(store.get(&key(1)), Some(first));
}

#[test]
fn put_inserts_and_replaces() {
    let mut store = ProfileStore::new();
    let a = UserProfile::new(key(1), key(101));
    let b = UserProfile::new(key(2), key(102));
    store.put(a);
    store.put(b);
    assert_eq!(store.get(&key(1)), Some(a));
    assert_eq!(store.get(&key(2)), Some(b));

    let mut a2 = a;
    a2.transaction_count = 500;
    a2.recompute();
    store.put(a2);
    assert_eq!(store.get(&key(1)), Some(a2));
    assert_eq!(store.get(&key(2)), Some(b));
    assert_eq!(store.create_if_absent(a), Err(ErrorCode::UserProfileAlreadyExists));
    assert_eq!(store.get(&key(1)), Some(a2));
}

#[test]
fn owners_that_differ_in_one_byte_are_kept_apart() {
    let mut store = ProfileStore::new();
    let mut bytes = [7u8; 32];
    let a = UserProfile::new(IdentityKey::new_from_array(bytes), key(101));
    bytes[31] = 8;
    let b = UserProfile::new(IdentityKey::new_from_array(bytes), key(102));
    assert_eq!(store.create_if_absent(a), Ok(()));
    assert_eq!(store.create_if_absent(b), Ok(()));
    assert_eq!(store.get(&a.owner), Some(a));
    assert_eq!(store.get(&b.owner), Some(b));
    assert_eq!(store.get(&key(7)), Some(a));
    assert_eq!(store.get(&key(8)), None);
}
