//! On-chain registration and ownership core for a multiplayer game.
//!
//! The crate holds the contract's state machine and its persistent data
//! model: one-time initialization binding an administrative owner and a
//! reward-issuing collaborator, idempotent player registration flags, and
//! read access to this state. The surrounding execution environment (the
//! chain runtime) supplies durable storage and authentication; this library
//! works on a plain-value snapshot of that state (`storage::Store`) and an
//! explicit authorization proof (`types::AuthProof`), and states exactly
//! what every operation returns and writes. Each operation is atomic: it
//! either commits all its writes or fails with a named error and writes
//! nothing.

use vstd::prelude::*;

pub mod storage;
pub mod types;

use crate::storage::{Store, StoreModel};
use crate::types::{id_of_result, AuthProof, Error, Identity, MissingValue};

verus! {

/// Entry point for the core game logic: initialization, player
/// registration, and read access to the stored configuration.
///
/// The `reward_system` address stored during `initialize` names the
/// collaborator whose voucher-minting entry point a future, fully
/// specified `register_player` will call; the lobby and game lifecycle
/// (game creation, joining, settlement) is likewise a planned extension
/// and no part of this surface.
pub struct TycoonMainGame;

impl TycoonMainGame {
    /// What `initialize` returns and leaves in the store: the error and
    /// unchanged state when the instance is already initialized or the
    /// proof does not come from the claimed owner, else success with the
    /// two addresses stored and the flag set.
    pub open spec fn spec_initialize(
        m: StoreModel,
        proof_subject: u64,
        owner: u64,
        reward_system: u64,
    ) -> (Result<(), Error>, StoreModel) {
        if m.initialized {
            (Err(Error::AlreadyInitialized), m)
        } else if proof_subject != owner {
            (Err(Error::AuthenticationFailed), m)
        } else {
            (
                Ok(()),
                StoreModel {
                    initialized: true,
                    owner: Some(owner),
                    reward_system: Some(reward_system),
                    ..m
                },
            )
        }
    }

    /// What `get_owner` returns: the stored owner, or the error naming
    /// the missing value when it was never stored.
    pub open spec fn spec_get_owner(m: StoreModel) -> Result<u64, Error> {
        match m.owner {
            Some(o) => Ok(o),
            None => Err(Error::NotInitialized(MissingValue::Owner)),
        }
    }

    /// What `get_reward_system` returns: the stored reward system
    /// address, or the error naming the missing value when it was never
    /// stored.
    pub open spec fn spec_get_reward_system(m: StoreModel) -> Result<u64, Error> {
        match m.reward_system {
            Some(r) => Ok(r),
            None => Err(Error::NotInitialized(MissingValue::RewardSystem)),
        }
    }

    /// What `is_registered` returns: whether the address's registration
    /// flag was written.
    pub open spec fn spec_is_registered(m: StoreModel, address: u64) -> bool {
        m.registered.contains(address)
    }

    /// Initialize the contract, storing the admin owner and the reward
    /// system address and setting the initialization flag, all or nothing.
    ///
    /// Succeeds exactly once per instance: a second call fails with
    /// `AlreadyInitialized` whatever its arguments. The call must carry an
    /// authorization proof from `owner`; without one it fails with
    /// `AuthenticationFailed` before any state is written, and a later
    /// correctly authenticated call may still succeed.
    pub fn initialize(
        store: &mut Store,
        auth: &AuthProof,
        owner: Identity,
        reward_system: Identity,
    ) -> (r: Result<(), Error>)
        ensures
            ({
                let (res, m) = Self::spec_initialize(
                    old(store)@,
                    auth.subject@,
                    owner@,
                    reward_system@,
                );
                r == res && final(store)@ == m
            }),
    {
        if storage::is_initialized(store) {
            return Err(Error::AlreadyInitialized);
        }
        if !(auth.subject == owner) {
            return Err(Error::AuthenticationFailed);
        }
        storage::set_owner(store, &owner);
        storage::set_reward_system(store, &reward_system);
        storage::set_initialized(store);
        Ok(())
    }

    /// Register a player for the main game.
    ///
    /// A stub by design: callable any number of times, before or after
    /// initialization, it never fails and changes nothing — in particular
    /// no address's registration flag. The full registration flow
    /// (caller authentication, username validation, duplicate rejection,
    /// a voucher-minting call on the reward system) is a planned
    /// extension, deliberately not inferred here.
    pub fn register_player(store: &mut Store)
        ensures
            final(store)@ == old(store)@,
    {
    }

    /// Returns the owner address stored during initialization, or
    /// `NotInitialized` if `initialize` never ran. The store is read only.
    pub fn get_owner(store: &Store) -> (r: Result<Identity, Error>)
        ensures
            id_of_result(r) == Self::spec_get_owner(store@),
    {
        match storage::get_owner(store) {
            Some(owner) => Ok(owner),
            None => Err(Error::NotInitialized(MissingValue::Owner)),
        }
    }

    /// Returns the reward system contract address stored during
    /// initialization, or `NotInitialized` if `initialize` never ran. The
    /// store is read only.
    pub fn get_reward_system(store: &Store) -> (r: Result<Identity, Error>)
        ensures
            id_of_result(r) == Self::spec_get_reward_system(store@),
    {
        match storage::get_reward_system(store) {
            Some(address) => Ok(address),
            None => Err(Error::NotInitialized(MissingValue::RewardSystem)),
        }
    }

    /// Returns true if the given address has been registered as a player;
    /// false for any address never registered. Never fails, whatever the
    /// initialization state.
    pub fn is_registered(store: &Store, address: &Identity) -> (r: bool)
        ensures
            r == Self::spec_is_registered(store@, address@),
    {
        storage::is_registered(store, address)
    }
}

/// On a fresh instance no address is registered: `is_registered` returns
/// false for every address never explicitly registered.
pub proof fn lemma_fresh_instance_unregistered(address: u64)
    ensures
        !TycoonMainGame::spec_is_registered(StoreModel::fresh(), address),
{
}

/// On a fresh instance the reads fail: `get_owner` and
/// `get_reward_system` both return `NotInitialized` (with distinct
/// missing-value payloads) before any `initialize` call.
pub proof fn lemma_reads_before_initialize_fail()
    ensures
        TycoonMainGame::spec_get_owner(StoreModel::fresh()) == Err::<
            u64,
            Error,
        >(Error::NotInitialized(MissingValue::Owner)),
        TycoonMainGame::spec_get_reward_system(StoreModel::fresh()) == Err::<
            u64,
            Error,
        >(Error::NotInitialized(MissingValue::RewardSystem)),
{
}

/// An authenticated `initialize(owner, reward_system)` on an uninitialized
/// instance succeeds, and the reads then return exactly the pair it
/// stored, for every valid pair.
pub proof fn lemma_initialize_then_read(m: StoreModel, owner: u64, reward_system: u64)
    requires
        !m.initialized,
    ensures
        ({
            let (res, m1) = TycoonMainGame::spec_initialize(m, owner, owner, reward_system);
            res == Ok::<(), Error>(()) && TycoonMainGame::spec_get_owner(m1) == Ok::<u64, Error>(
                owner,
            ) && TycoonMainGame::spec_get_reward_system(m1) == Ok::<u64, Error>(reward_system)
        }),
{
}

/// A second `initialize`, with any arguments and any proof, fails with
/// `AlreadyInitialized`, changes nothing, and the state observable through
/// the reads still reflects only the first call's arguments.
pub proof fn lemma_second_initialize_rejected(
    m: StoreModel,
    owner: u64,
    reward_system: u64,
    subject2: u64,
    owner2: u64,
    reward_system2: u64,
)
    requires
        !m.initialized,
    ensures
        ({
            let (res1, m1) = TycoonMainGame::spec_initialize(m, owner, owner, reward_system);
            let (res2, m2) = TycoonMainGame::spec_initialize(m1, subject2, owner2, reward_system2);
            res2 == Err::<(), Error>(Error::AlreadyInitialized) && m2 == m1
                && TycoonMainGame::spec_get_owner(m2) == Ok::<u64, Error>(owner)
                && TycoonMainGame::spec_get_reward_system(m2) == Ok::<u64, Error>(reward_system)
        }),
{
}

/// An `initialize` whose proof does not come from the claimed owner fails
/// with `AuthenticationFailed` and leaves the instance uninitialized and
/// unchanged; a subsequent correctly authenticated `initialize` still
/// succeeds.
pub proof fn lemma_unauthenticated_initialize_rejected(
    m: StoreModel,
    subject: u64,
    owner: u64,
    reward_system: u64,
)
    requires
        !m.initialized,
        subject != owner,
    ensures
        ({
            let (res, m1) = TycoonMainGame::spec_initialize(m, subject, owner, reward_system);
            res == Err::<(), Error>(Error::AuthenticationFailed) && m1 == m && !m1.initialized
                && TycoonMainGame::spec_initialize(m1, owner, owner, reward_system).0 == Ok::<
                (),
                Error,
            >(())
        }),
{
}

} // verus!
