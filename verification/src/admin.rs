//! The administrative layer: a single-writer admin identity and a pause
//! flag, guarding the escrow operations. Caller authentication itself is the
//! host's duty and happens before these guards run.
use crate::bytemap::bytes_eq;
use crate::errors::QuickexError;
use crate::storage;
use crate::storage::Store;
use crate::storage::StoreModel;
use vstd::prelude::*;

verus! {

/// What `initialize` returns: `Ok` exactly when no admin was set yet.
pub open spec fn initialize_outcome(m: StoreModel) -> Result<(), QuickexError> {
    if m.admin is Some {
        Err(QuickexError::AlreadyInitialized)
    } else {
        Ok(())
    }
}

/// What an admin-only operation returns for `caller`: `Ok` exactly when an
/// admin is set and `caller` is that admin.
pub open spec fn require_admin_outcome(m: StoreModel, caller: Seq<u8>) -> Result<
    (),
    QuickexError,
> {
    if m.admin == Some(caller) {
        Ok(())
    } else {
        Err(QuickexError::Unauthorized)
    }
}

/// What the pause guard returns: `Ok` exactly when the contract is not paused.
pub open spec fn not_paused_outcome(m: StoreModel) -> Result<(), QuickexError> {
    if m.paused {
        Err(QuickexError::ContractPaused)
    } else {
        Ok(())
    }
}

/// Initializes the contract with an admin identity; fails if one is set.
pub fn initialize(store: &mut Store, admin: &Vec<u8>) -> (r: Result<(), QuickexError>)
    ensures
        r == initialize_outcome(old(store)@),
        r is Ok ==> final(store)@ == (StoreModel {
            admin: Some(admin@),
            paused: false,
            ..old(store)@
        }),
        r is Err ==> final(store)@ == old(store)@,
{
    if storage::has_admin(store) {
        return Err(QuickexError::AlreadyInitialized);
    }
    storage::set_admin(store, admin);
    storage::set_paused(store, false);
    Ok(())
}

/// Whether an admin identity was set.
pub fn has_admin(store: &Store) -> (r: bool)
    ensures
        r == (store@.admin is Some),
{
    storage::has_admin(store)
}

/// The admin identity, if one was set.
pub fn get_admin(store: &Store) -> (r: Option<Vec<u8>>)
    ensures
        match r {
            Some(a) => store@.admin == Some(a@),
            None => store@.admin is None,
        },
{
    storage::get_admin(store)
}

/// Checks that `caller` is the admin. The host authenticates the caller
/// before this guard decides.
pub fn require_admin(store: &Store, caller: &Vec<u8>) -> (r: Result<(), QuickexError>)
    ensures
        r == require_admin_outcome(store@, caller@),
{
    match storage::get_admin(store) {
        Some(admin) => {
            if bytes_eq(&admin, caller) {
                Ok(())
            } else {
                Err(QuickexError::Unauthorized)
            }
        },
        None => Err(QuickexError::Unauthorized),
    }
}

/// Hands the admin role to `new_admin`; only the current admin may do so.
pub fn set_admin(store: &mut Store, caller: &Vec<u8>, new_admin: &Vec<u8>) -> (r: Result<
    (),
    QuickexError,
>)
    ensures
        r == require_admin_outcome(old(store)@, caller@),
        r is Ok ==> final(store)@ == (StoreModel { admin: Some(new_admin@), ..old(store)@ }),
        r is Err ==> final(store)@ == old(store)@,
{
    match require_admin(store, caller) {
        Ok(_) => {
            storage::set_admin(store, new_admin);
            Ok(())
        },
        Err(e) => Err(e),
    }
}

/// Pauses or unpauses the contract; only the admin may do so.
pub fn set_paused(store: &mut Store, caller: &Vec<u8>, new_state: bool) -> (r: Result<
    (),
    QuickexError,
>)
    ensures
        r == require_admin_outcome(old(store)@, caller@),
        r is Ok ==> final(store)@ == (StoreModel { paused: new_state, ..old(store)@ }),
        r is Err ==> final(store)@ == old(store)@,
{
    match require_admin(store, caller) {
        Ok(_) => {
            storage::set_paused(store, new_state);
            Ok(())
        },
        Err(e) => Err(e),
    }
}

/// Whether the contract is paused.
pub fn is_paused(store: &Store) -> (r: bool)
    ensures
        r == store@.paused,
{
    storage::is_paused(store)
}

/// The pause guard called before `deposit` and `withdraw`.
pub fn require_not_paused(store: &Store) -> (r: Result<(), QuickexError>)
    ensures
        r == not_paused_outcome(store@),
{
    if storage::is_paused(store) {
        return Err(QuickexError::ContractPaused);
    }
    Ok(())
}

} // verus!
