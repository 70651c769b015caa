//! A commitment-based escrow engine: a deposit is registered under a one-way
//! cryptographic commitment instead of a named recipient, and a claimant
//! later proves entitlement by revealing the commitment's preimage (claimant
//! identity, amount, salt). Each commitment settles exactly once.
//!
//! The contract's durable state is held explicitly in a [`storage::Store`];
//! the host performs authentication, fund transfers and event emission
//! around the transitions this library decides.
pub mod admin;
pub mod bytemap;
pub mod commitment;
pub mod errors;
pub mod escrow;
pub mod quicksilver;
pub mod storage;
pub mod types;

use crate::errors::QuickexError;
use crate::storage::Store;
use crate::storage::StoreModel;
use crate::types::EscrowEntry;
use crate::types::EscrowStatus;
use vstd::prelude::*;

verus! {

/// The escrow contract: the commitment engine, the escrow ledger and the
/// administrative guards over an explicit durable state.
pub struct QuickexContract {
    /// The contract's durable state. Public so that a host harness can seed
    /// records directly, as the durable store would.
    pub store: Store,
}

impl View for QuickexContract {
    type V = StoreModel;

    open spec fn view(&self) -> StoreModel {
        self.store@
    }
}

impl QuickexContract {
    /// A contract over a fresh, empty state.
    pub fn new() -> (r: Self)
        ensures
            r@ == storage::empty_store(),
    {
        QuickexContract { store: Store::new() }
    }

    /// Registers a deposit of `amount` of asset `token` under `commitment`.
    ///
    /// Fails with `InvalidAmount` when `amount <= 0` and with
    /// `CommitmentAlreadyExists` when the digest already keys a record; on
    /// success a `Pending` record is created. The host moves the funds into
    /// custody after [`Self::check_deposit`] passes and before this record
    /// is written, and authenticates `from` before anything else.
    pub fn deposit(
        &mut self,
        from: &Vec<u8>,
        token: &Vec<u8>,
        amount: i128,
        commitment: &Vec<u8>,
        created_at: u64,
    ) -> (r: Result<(), QuickexError>)
        ensures
            r == escrow::deposit_outcome(old(self)@.escrows, amount, commitment@),
            final(self)@ == (StoreModel {
                escrows: escrow::deposit_effect(
                    old(self)@.escrows,
                    from@,
                    token@,
                    amount,
                    commitment@,
                    created_at,
                ),
                ..old(self)@
            }),
    {
        if amount <= 0 {
            return Err(QuickexError::InvalidAmount);
        }
        if storage::has_escrow(&self.store, commitment) {
            return Err(QuickexError::CommitmentAlreadyExists);
        }
        let entry = EscrowEntry {
            commitment: bytemap::copy_vec(commitment),
            token: bytemap::copy_vec(token),
            amount,
            depositor: bytemap::copy_vec(from),
            status: EscrowStatus::Pending,
            created_at,
        };
        storage::put_escrow(&mut self.store, commitment, &entry);
        Ok(())
    }

    /// The guard half of `deposit`: whether a deposit of `amount` under
    /// `commitment` would be accepted right now. The host calls this before
    /// moving funds, so that custody is taken only for deposits that will be
    /// recorded.
    pub fn check_deposit(&self, amount: i128, commitment: &Vec<u8>) -> (r: Result<
        (),
        QuickexError,
    >)
        ensures
            r == escrow::deposit_outcome(self@.escrows, amount, commitment@),
    {
        if amount <= 0 {
            return Err(QuickexError::InvalidAmount);
        }
        if storage::has_escrow(&self.store, commitment) {
            return Err(QuickexError::CommitmentAlreadyExists);
        }
        Ok(())
    }

    /// Settles the record whose commitment digest the reveal (`to`, `amount`,
    /// `salt`) recomputes.
    ///
    /// Fails with `InvalidAmount` when `amount <= 0`, before any lookup;
    /// with `CommitmentNotFound` when the digest keys no record; with
    /// `AlreadySpent` when the record is not `Pending`; and with
    /// `InvalidCommitment` when the stored amount differs from the revealed
    /// one. On success the record flips to `Spent` — before the host pays
    /// out — and `Ok(true)` is returned. The host authenticates `to` first
    /// and transfers the funds afterwards.
    pub fn withdraw(
        &mut self,
        env: &soroban_sdk::Env,
        to: &Vec<u8>,
        amount: i128,
        salt: &Vec<u8>,
    ) -> (r: Result<bool, QuickexError>)
        ensures
            r == escrow::withdraw_outcome(old(self)@.escrows, to@, amount, salt@),
            final(self)@ == (StoreModel {
                escrows: escrow::withdraw_effect(old(self)@.escrows, to@, amount, salt@),
                ..old(self)@
            }),
    {
        if amount <= 0 {
            return Err(QuickexError::InvalidAmount);
        }
        let digest = commitment::create_amount_commitment(env, to, amount, salt);
        let entry = match storage::get_escrow(&self.store, &digest) {
            Some(e) => e,
            None => {
                return Err(QuickexError::CommitmentNotFound);
            },
        };
        match escrow::settle_entry(&entry, amount) {
            Ok(updated) => {
                storage::put_escrow(&mut self.store, &digest, &updated);
                Ok(true)
            },
            Err(e) => Err(e),
        }
    }

    /// Derives the commitment digest for (owner, amount, salt).
    pub fn create_amount_commitment(
        env: &soroban_sdk::Env,
        owner: &Vec<u8>,
        amount: i128,
        salt: &Vec<u8>,
    ) -> (r: Vec<u8>)
        ensures
            r@ == commitment::commitment_of(owner@, amount, salt@),
            r@.len() == 32,
    {
        commitment::create_amount_commitment(env, owner, amount, salt)
    }

    /// Whether `commitment` is the digest of (owner, amount, salt).
    pub fn verify_amount_commitment(
        env: &soroban_sdk::Env,
        commitment: &Vec<u8>,
        owner: &Vec<u8>,
        amount: i128,
        salt: &Vec<u8>,
    ) -> (r: bool)
        ensures
            r == commitment::commitment_matches(commitment@, owner@, amount, salt@),
    {
        commitment::verify_amount_commitment(env, commitment, owner, amount, salt)
    }

    /// Read-only proof check: whether the reveal (`amount`, `salt`, `owner`)
    /// matches an outstanding `Pending` record with that exact amount. All
    /// negative cases collapse to `false`.
    pub fn verify_proof_view(
        &self,
        env: &soroban_sdk::Env,
        amount: i128,
        salt: &Vec<u8>,
        owner: &Vec<u8>,
    ) -> (r: bool)
        ensures
            r == escrow::proof_accepted(self@.escrows, owner@, amount, salt@),
    {
        let digest = commitment::create_amount_commitment(env, owner, amount, salt);
        match storage::get_escrow(&self.store, &digest) {
            Some(e) => {
                let pending = match e.status {
                    EscrowStatus::Pending => true,
                    _ => false,
                };
                pending && e.amount == amount
            },
            None => false,
        }
    }

    /// The lifecycle state recorded under a commitment digest, `None` when
    /// the digest was never deposited under.
    pub fn get_commitment_state(&self, commitment: &Vec<u8>) -> (r: Option<EscrowStatus>)
        ensures
            match r {
                Some(s) => self@.escrows.contains_key(commitment@) && s
                    == self@.escrows[commitment@].status,
                None => !self@.escrows.contains_key(commitment@),
            },
    {
        match storage::get_escrow(&self.store, commitment) {
            Some(e) => Some(e.status),
            None => None,
        }
    }

    /// The full record stored under a commitment digest, `None` when absent.
    pub fn get_escrow_details(&self, commitment: &Vec<u8>) -> (r: Option<EscrowEntry>)
        ensures
            match r {
                Some(e) => self@.escrows.contains_key(commitment@) && e@
                    == self@.escrows[commitment@],
                None => !self@.escrows.contains_key(commitment@),
            },
    {
        storage::get_escrow(&self.store, commitment)
    }

    /// Sets the privacy level of `account` and prepends it to the account's
    /// history. Always succeeds and returns `true`.
    pub fn enable_privacy(&mut self, account: &Vec<u8>, privacy_level: u32) -> (r: bool)
        ensures
            r,
            final(self)@ == (StoreModel {
                privacy_levels: old(self)@.privacy_levels.insert(account@, privacy_level),
                privacy_history: old(self)@.privacy_history.insert(
                    account@,
                    storage::pushed_history(old(self)@.privacy_history, account@, privacy_level),
                ),
                ..old(self)@
            }),
    {
        storage::set_privacy_level(&mut self.store, account, privacy_level);
        storage::add_privacy_history(&mut self.store, account, privacy_level);
        true
    }

    /// The privacy level of `account`, if one was ever set.
    pub fn privacy_status(&self, account: &Vec<u8>) -> (r: Option<u32>)
        ensures
            match r {
                Some(level) => self@.privacy_levels.contains_key(account@) && level
                    == self@.privacy_levels[account@],
                None => !self@.privacy_levels.contains_key(account@),
            },
    {
        storage::get_privacy_level(&self.store, account)
    }

    /// The history of privacy levels of `account`, newest first.
    pub fn privacy_history(&self, account: &Vec<u8>) -> (r: Vec<u32>)
        ensures
            r@ == if self@.privacy_history.contains_key(account@) {
                self@.privacy_history[account@]
            } else {
                Seq::<u32>::empty()
            },
    {
        storage::get_privacy_history(&self.store, account)
    }

    /// Turns the privacy switch of `owner` on or off. The host authenticates
    /// `owner` before the call; the switch itself always succeeds.
    pub fn set_privacy(&mut self, owner: &Vec<u8>, enabled: bool) -> (r: Result<(), QuickexError>)
        ensures
            r is Ok,
            final(self)@ == (StoreModel {
                privacy_flags: old(self)@.privacy_flags.insert(owner@, enabled),
                ..old(self)@
            }),
    {
        storage::set_privacy_flag(&mut self.store, owner, enabled);
        Ok(())
    }

    /// The privacy switch of `owner`; off when never set.
    pub fn get_privacy(&self, owner: &Vec<u8>) -> (r: bool)
        ensures
            r == (self@.privacy_flags.contains_key(owner@) && self@.privacy_flags[owner@]),
    {
        storage::get_privacy_flag(&self.store, owner)
    }

    /// Placeholder escrow feature: draws the next id from the counter and
    /// records the parties under it.
    pub fn create_escrow(&mut self, from: &Vec<u8>, to: &Vec<u8>, _amount: u64) -> (r: u64)
        requires
            old(self)@.escrow_counter < u64::MAX,
        ensures
            r == old(self)@.escrow_counter + 1,
            final(self)@ == (StoreModel {
                escrow_counter: r,
                escrow_directory: old(self)@.escrow_directory.push(
                    storage::DirectoryModel { id: r, from: from@, to: to@ },
                ),
                ..old(self)@
            }),
    {
        let id = storage::increment_escrow_counter(&mut self.store);
        storage::put_escrow_parties(&mut self.store, id, from, to);
        id
    }

    /// Health check: the contract is operational.
    pub fn health_check() -> (r: bool)
        ensures
            r,
    {
        true
    }

    /// Initializes the contract with an admin; fails once an admin is set.
    pub fn initialize(&mut self, admin: &Vec<u8>) -> (r: Result<(), QuickexError>)
        ensures
            r == admin::initialize_outcome(old(self)@),
            r is Ok ==> final(self)@ == (StoreModel {
                admin: Some(admin@),
                paused: false,
                ..old(self)@
            }),
            r is Err ==> final(self)@ == old(self)@,
    {
        admin::initialize(&mut self.store, admin)
    }

    /// Pauses or unpauses the contract; admin only.
    pub fn set_paused(&mut self, caller: &Vec<u8>, new_state: bool) -> (r: Result<
        (),
        QuickexError,
    >)
        ensures
            r == admin::require_admin_outcome(old(self)@, caller@),
            r is Ok ==> final(self)@ == (StoreModel { paused: new_state, ..old(self)@ }),
            r is Err ==> final(self)@ == old(self)@,
    {
        admin::set_paused(&mut self.store, caller, new_state)
    }

    /// Hands the admin role to `new_admin`; admin only.
    pub fn set_admin(&mut self, caller: &Vec<u8>, new_admin: &Vec<u8>) -> (r: Result<
        (),
        QuickexError,
    >)
        ensures
            r == admin::require_admin_outcome(old(self)@, caller@),
            r is Ok ==> final(self)@ == (StoreModel { admin: Some(new_admin@), ..old(self)@ }),
            r is Err ==> final(self)@ == old(self)@,
    {
        admin::set_admin(&mut self.store, caller, new_admin)
    }

    /// Whether the contract is paused.
    pub fn is_paused(&self) -> (r: bool)
        ensures
            r == self@.paused,
    {
        admin::is_paused(&self.store)
    }

    /// The admin identity, if the contract was initialized.
    pub fn get_admin(&self) -> (r: Option<Vec<u8>>)
        ensures
            match r {
                Some(a) => self@.admin == Some(a@),
                None => self@.admin is None,
            },
    {
        admin::get_admin(&self.store)
    }
}

} // verus!
