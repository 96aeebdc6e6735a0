//! The persistent store: a namespaced key-value map with typed accessors.
//!
//! The key space is closed and enumerable (`DataKey`); each key family has
//! a declared durability tier and cardinality. `Store` is the contract's
//! snapshot of that map as plain values; the execution environment reads
//! the snapshot in and writes it back around each operation. No validation
//! logic lives here: the store overwrites unconditionally, and the contract
//! surface is responsible for the write-once invariants.

use vstd::prelude::*;

use crate::types::{id_of_opt, Identity};

verus! {

/// The closed key space of the persistent store. Any key outside this
/// enumeration is a programming error at the type level, not a runtime
/// condition.
#[derive(Clone, Copy, PartialEq, Eq, Structural, Debug)]
pub enum DataKey {
    /// The contract admin/owner address. Instance-scoped singleton.
    Owner,
    /// The reward system contract address used for voucher minting.
    /// Instance-scoped singleton.
    RewardSystem,
    /// Whether the contract has been initialized. Instance-scoped
    /// singleton.
    IsInitialized,
    /// Whether the given address has registered as a player.
    /// Persistent-scoped, one entry per registered address.
    Registered(Identity),
}

/// The mathematical model of the store: the value at each key family.
/// A `None` singleton and an identifier absent from `registered` model
/// keys that were never written.
#[verifier::ext_equal]
pub struct StoreModel {
    /// The value at `IsInitialized`, defaulting to false.
    pub initialized: bool,
    /// The value at `Owner`, absent until written.
    pub owner: Option<u64>,
    /// The value at `RewardSystem`, absent until written.
    pub reward_system: Option<u64>,
    /// The identifiers whose `Registered` flag was written true.
    pub registered: Set<u64>,
}

impl StoreModel {
    /// The store of a fresh contract instance: nothing written yet.
    pub open spec fn fresh() -> StoreModel {
        StoreModel { initialized: false, owner: None, reward_system: None, registered: Set::empty() }
    }
}

/// A plain-value snapshot of the contract's durable key-value state.
pub struct Store {
    initialized: bool,
    owner: Option<Identity>,
    reward_system: Option<Identity>,
    registered: Vec<u64>,
}

impl View for Store {
    type V = StoreModel;

    closed spec fn view(&self) -> StoreModel {
        StoreModel {
            initialized: self.initialized,
            owner: id_of_opt(self.owner),
            reward_system: id_of_opt(self.reward_system),
            registered: self.registered@.to_set(),
        }
    }
}

impl Store {
    /// A store with nothing written: the state of a fresh contract
    /// instance.
    pub fn new() -> (s: Store)
        ensures
            s@ == StoreModel::fresh(),
    {
        let s = Store { initialized: false, owner: None, reward_system: None, registered: Vec::new() };
        proof {
            assert(s.registered@.to_set() =~= Set::<u64>::empty());
            assert(s@ =~= StoreModel::fresh());
        }
        s
    }
}

/// Returns true if the contract has already been initialized; false when
/// the flag was never written.
pub fn is_initialized(s: &Store) -> (r: bool)
    ensures
        r == s@.initialized,
{
    s.initialized
}

/// Sets the initialization flag. Overwrites unconditionally; the contract
/// surface keeps the flag's false-to-true-once invariant.
pub fn set_initialized(s: &mut Store)
    ensures
        final(s)@ == (StoreModel { initialized: true, ..old(s)@ }),
{
    s.initialized = true;
}

/// Retrieves the owner address, or absence if it was never stored.
pub fn get_owner(s: &Store) -> (r: Option<Identity>)
    ensures
        id_of_opt(r) == s@.owner,
{
    s.owner
}

/// Stores the owner address.
pub fn set_owner(s: &mut Store, owner: &Identity)
    ensures
        final(s)@ == (StoreModel { owner: Some(owner@), ..old(s)@ }),
{
    s.owner = Some(*owner);
}

/// Retrieves the reward system contract address, or absence if it was
/// never stored. The stored address is the collaborator that future
/// voucher-minting calls will target.
pub fn get_reward_system(s: &Store) -> (r: Option<Identity>)
    ensures
        id_of_opt(r) == s@.reward_system,
{
    s.reward_system
}

/// Stores the reward system contract address.
pub fn set_reward_system(s: &mut Store, address: &Identity)
    ensures
        final(s)@ == (StoreModel { reward_system: Some(address@), ..old(s)@ }),
{
    s.reward_system = Some(*address);
}

/// Returns true if the given address has been registered as a player;
/// false for any address whose flag was never written.
pub fn is_registered(s: &Store, address: &Identity) -> (r: bool)
    ensures
        r == s@.registered.contains(address@),
{
    let mut i: usize = 0;
    while i < s.registered.len()
        invariant
            i <= s.registered.len(),
            forall|j: int| 0 <= j < i ==> s.registered@[j] != address.id,
        decreases s.registered.len() - i,
    {
        if s.registered[i] == address.id {
            proof {
                assert(s.registered@.contains(address.id)) by {
                    assert(s.registered@[i as int] == address.id);
                }
            }
            return true;
        }
        i += 1;
    }
    proof {
        assert(!s.registered@.contains(address.id));
    }
    false
}

/// Marks the given address as a registered player. Writing a flag that is
/// already set leaves the store unchanged (the flag is monotone: once true,
/// never unset).
pub fn set_registered(s: &mut Store, address: &Identity)
    ensures
        final(s)@ == (StoreModel { registered: old(s)@.registered.insert(address@), ..old(s)@ }),
{
    if !is_registered(s, address) {
        s.registered.push(address.id);
        proof {
            old(s).registered@.lemma_push_to_set_commute(address.id);
            assert(s@ =~= (StoreModel {
                registered: old(s)@.registered.insert(address@),
                ..old(s)@
            }));
        }
    } else {
        proof {
            assert(old(s)@.registered.insert(address@) =~= old(s)@.registered);
            assert(s@ =~= (StoreModel {
                registered: old(s)@.registered.insert(address@),
                ..old(s)@
            }));
        }
    }
}

} // verus!
