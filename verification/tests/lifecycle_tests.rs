use points_ledger::errors::MyError;
use points_ledger::idgen::initialize_id_generator;
use points_ledger::ledger::transfer_points;
use points_ledger::lifecycle::{initialize, remove_user};
use points_ledger::store::UserStore;
use points_ledger::user::Pubkey;

fn key(tag: u8) -> Pubkey {
    Pubkey { bytes: [tag; 32] }
}

#[test]
fn initialize_mints_id_and_allocates_record() {
    let mut gen = initialize_id_generator();
    let mut store = UserStore::new();
    let id = initialize(&mut gen, &mut store, b"Alice".to_vec(), key(1), 7).unwrap();
    assert_eq!(id, 7u64 << 32);
    let user = store.lookup(id).unwrap();
    assert_eq!(user.owner, key(1));
    assert_eq!(user.name, b"Alice".to_vec());
    assert_eq!(user.points, 1000);
}

#[test]
fn initialize_with_bad_name_moves_nothing() {
    let mut gen = initialize_id_generator();
    let mut store = UserStore::new();
    let r = initialize(&mut gen, &mut store, b"".to_vec(), key(1), 7);
    assert_eq!(r.unwrap_err(), MyError::InvalidNameLength);
    assert_eq!(gen.last_timestamp, 0);
    assert_eq!(gen.counter, 0);
    assert_eq!(store.users.len(), 0);
    let r2 = initialize(&mut gen, &mut store, b"far too long".to_vec(), key(1), 7);
    assert_eq!(r2.unwrap_err(), MyError::InvalidNameLength);
    assert_eq!(store.users.len(), 0);
}

#[test]
fn remove_by_owner_frees_the_slot() {
    let mut gen = initialize_id_generator();
    let mut store = UserStore::new();
    let id = initialize(&mut gen, &mut store, b"Alice".to_vec(), key(1), 7).unwrap();
    let r = remove_user(&mut store, id, key(1));
    assert!(r.is_ok());
    assert!(store.lookup(id).is_none());
    assert_eq!(store.users.len(), 0);
}

#[test]
fn remove_by_non_owner_fails_and_keeps_the_record() {
    let mut gen = initialize_id_generator();
    let mut store = UserStore::new();
    let id = initialize(&mut gen, &mut store, b"Alice".to_vec(), key(1), 7).unwrap();
    let r = remove_user(&mut store, id, key(2));
    assert_eq!(r.unwrap_err(), MyError::UnauthorizedRemoval);
    let user = store.lookup(id).unwrap();
    assert_eq!(user.points, 1000);
}

#[test]
fn remove_keeps_the_other_records() {
    let mut gen = initialize_id_generator();
    let mut store = UserStore::new();
    let alice = initialize(&mut gen, &mut store, b"Alice".to_vec(), key(1), 7).unwrap();
    let bob = initialize(&mut gen, &mut store, b"Bob".to_vec(), key(2), 7).unwrap();
    let carol = initialize(&mut gen, &mut store, b"Carol".to_vec(), key(3), 8).unwrap();
    remove_user(&mut store, bob, key(2)).unwrap();
    assert!(store.lookup(alice).is_some());
    assert!(store.lookup(bob).is_none());
    assert!(store.lookup(carol).is_some());
    assert_eq!(store.users.len(), 2);
}

#[test]
fn full_scenario_create_transfer_and_refused_removal() {
    let mut gen = initialize_id_generator();
    let mut store = UserStore::new();
    let alice_key = key(1);
    let bob_key = key(2);
    let t = 1_700_000_000u64 & 0xFFFF_FFFF;

    let alice = initialize(&mut gen, &mut store, b"Alice".to_vec(), alice_key, t).unwrap();
    assert_eq!(alice, t << 32);
    assert_eq!(store.lookup(alice).unwrap().points, 1000);

    let bob = initialize(&mut gen, &mut store, b"Bob".to_vec(), bob_key, t).unwrap();
    assert_eq!(bob, (t << 32) | 1);
    assert_eq!(store.lookup(bob).unwrap().points, 1000);

    let (first, second) = store.users.split_at_mut(1);
    let r = transfer_points(&mut first[0], &mut second[0], 300, alice_key);
    assert!(r.is_ok());
    assert_eq!(store.lookup(alice).unwrap().points, 700);
    assert_eq!(store.lookup(bob).unwrap().points, 1300);

    let r = remove_user(&mut store, alice, bob_key);
    assert_eq!(r.unwrap_err(), MyError::UnauthorizedRemoval);
    let still_there = store.lookup(alice).unwrap();
    assert_eq!(still_there.points, 700);
}
