use tycoon_main_game::storage::{self, DataKey, Store};
use tycoon_main_game::types::Identity;

#[test]
fn test_fresh_store_holds_nothing() {
    let store = Store::new();

    assert!(!storage::is_initialized(&store));
    assert_eq!(storage::get_owner(&store), None);
    assert_eq!(storage::get_reward_system(&store), None);
    assert!(!storage::is_registered(&store, &Identity::new(3)));
}

#[test]
fn test_set_initialized_sets_the_flag() {
    let mut store = Store::new();

    storage::set_initialized(&mut store);

    assert!(storage::is_initialized(&store));
}

#[test]
fn test_set_owner_then_get_owner() {
    let mut store = Store::new();
    let owner = Identity::new(8);

    storage::set_owner(&mut store, &owner);

    assert_eq!(storage::get_owner(&store), Some(owner));
    // The other singletons stay untouched.
    assert_eq!(storage::get_reward_system(&store), None);
    assert!(!storage::is_initialized(&store));
}

#[test]
fn test_set_reward_system_then_get_reward_system() {
    let mut store = Store::new();
    let reward_system = Identity::new(9);

    storage::set_reward_system(&mut store, &reward_system);

    assert_eq!(storage::get_reward_system(&store), Some(reward_system));
    assert_eq!(storage::get_owner(&store), None);
}

#[test]
fn test_set_overwrites_unconditionally() {
    let mut store = Store::new();

    storage::set_owner(&mut store, &Identity::new(1));
    storage::set_owner(&mut store, &Identity::new(2));

    assert_eq!(storage::get_owner(&store), Some(Identity::new(2)));
}

#[test]
fn test_set_registered_marks_only_that_address() {
    let mut store = Store::new();
    let player = Identity::new(21);
    let other = Identity::new(22);

    storage::set_registered(&mut store, &player);

    assert!(storage::is_registered(&store, &player));
    assert!(!storage::is_registered(&store, &other));
}

#[test]
fn test_set_registered_is_idempotent() {
    let mut store = Store::new();
    let player = Identity::new(21);

    storage::set_registered(&mut store, &player);
    storage::set_registered(&mut store, &player);

    assert!(storage::is_registered(&store, &player));
}

#[test]
fn test_set_registered_keeps_earlier_registrations() {
    let mut store = Store::new();
    let first = Identity::new(31);
    let second = Identity::new(32);

    storage::set_registered(&mut store, &first);
    storage::set_registered(&mut store, &second);

    // Once set, a flag is never unset.
    assert!(storage::is_registered(&store, &first));
    assert!(storage::is_registered(&store, &second));
}

#[test]
fn test_data_key_families_are_distinct() {
    let keys = [
        DataKey::Owner,
        DataKey::RewardSystem,
        DataKey::IsInitialized,
        DataKey::Registered(Identity::new(1)),
        DataKey::Registered(Identity::new(2)),
    ];
    for (i, a) in keys.iter().enumerate() {
        for (j, b) in keys.iter().enumerate() {
            assert_eq!(a == b, i == j);
        }
    }
}
