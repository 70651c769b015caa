//! The administrative layer (initialize, pause, admin transfer) and the
//! privacy bookkeeping of the main contract.
use quickex::errors::QuickexError;
use quickex::QuickexContract;
use soroban_sdk::testutils::Address as _;
use soroban_sdk::xdr::ToXdr;
use soroban_sdk::{Address, Env};

fn address_bytes(env: &Env, a: &Address) -> Vec<u8> {
    let b = a.clone().to_xdr(env);
    let mut v = Vec::new();
    for x in b.iter() {
        v.push(x);
    }
    v
}

#[test]
fn test_initialize_admin() {
    let env = Env::default();
    let mut c = QuickexContract::new();
    let admin = address_bytes(&env, &Address::generate(&env));

    assert_eq!(c.initialize(&admin), Ok(()));
    assert_eq!(c.get_admin(), Some(admin.clone()));
    assert!(!c.is_paused());
}

#[test]
fn test_initialize_twice_fails() {
    let env = Env::default();
    let mut c = QuickexContract::new();
    let admin1 = address_bytes(&env, &Address::generate(&env));
    let admin2 = address_bytes(&env, &Address::generate(&env));

    assert_eq!(c.initialize(&admin1), Ok(()));
    assert_eq!(c.initialize(&admin2), Err(QuickexError::AlreadyInitialized));
    assert_eq!(c.get_admin(), Some(admin1));
}

#[test]
fn test_set_paused_by_admin() {
    let env = Env::default();
    let mut c = QuickexContract::new();
    let admin = address_bytes(&env, &Address::generate(&env));

    c.initialize(&admin).unwrap();

    assert_eq!(c.set_paused(&admin, true), Ok(()));
    assert!(c.is_paused());

    assert_eq!(c.set_paused(&admin, false), Ok(()));
    assert!(!c.is_paused());
}

#[test]
fn test_set_paused_by_non_admin_fails() {
    let env = Env::default();
    let mut c = QuickexContract::new();
    let admin = address_bytes(&env, &Address::generate(&env));
    let non_admin = address_bytes(&env, &Address::generate(&env));

    c.initialize(&admin).unwrap();

    assert_eq!(c.set_paused(&non_admin, true), Err(QuickexError::Unauthorized));
    assert!(!c.is_paused());
}

#[test]
fn test_set_admin() {
    let env = Env::default();
    let mut c = QuickexContract::new();
    let admin = address_bytes(&env, &Address::generate(&env));
    let new_admin = address_bytes(&env, &Address::generate(&env));

    c.initialize(&admin).unwrap();

    assert_eq!(c.set_admin(&admin, &new_admin), Ok(()));
    assert_eq!(c.get_admin(), Some(new_admin.clone()));

    assert_eq!(c.set_paused(&new_admin, true), Ok(()));
    assert!(c.is_paused());
}

#[test]
fn test_set_admin_by_non_admin_fails() {
    let env = Env::default();
    let mut c = QuickexContract::new();
    let admin = address_bytes(&env, &Address::generate(&env));
    let non_admin = address_bytes(&env, &Address::generate(&env));
    let new_admin = address_bytes(&env, &Address::generate(&env));

    c.initialize(&admin).unwrap();

    assert_eq!(c.set_admin(&non_admin, &new_admin), Err(QuickexError::Unauthorized));
    assert_eq!(c.get_admin(), Some(admin));
}

#[test]
fn test_old_admin_cannot_pause_after_transfer() {
    let env = Env::default();
    let mut c = QuickexContract::new();
    let admin = address_bytes(&env, &Address::generate(&env));
    let new_admin = address_bytes(&env, &Address::generate(&env));

    c.initialize(&admin).unwrap();
    c.set_admin(&admin, &new_admin).unwrap();

    assert_eq!(c.set_paused(&admin, true), Err(QuickexError::Unauthorized));
    assert!(!c.is_paused());
}

#[test]
fn test_pause_guard() {
    let env = Env::default();
    let mut c = QuickexContract::new();
    let admin = address_bytes(&env, &Address::generate(&env));

    c.initialize(&admin).unwrap();
    assert_eq!(quickex::admin::require_not_paused(&c.store), Ok(()));
    c.set_paused(&admin, true).unwrap();
    assert_eq!(quickex::admin::require_not_paused(&c.store), Err(QuickexError::ContractPaused));
}

#[test]
fn test_require_admin_without_initialization_fails() {
    let env = Env::default();
    let c = QuickexContract::new();
    let caller = address_bytes(&env, &Address::generate(&env));
    assert_eq!(quickex::admin::require_admin(&c.store, &caller), Err(QuickexError::Unauthorized));
}

#[test]
fn test_set_and_get_privacy() {
    let env = Env::default();
    let mut c = QuickexContract::new();
    let account = address_bytes(&env, &Address::generate(&env));

    // Default should be false
    assert!(!c.get_privacy(&account));

    // Enable privacy
    assert_eq!(c.set_privacy(&account, true), Ok(()));
    assert!(c.get_privacy(&account));

    // Disable privacy
    assert_eq!(c.set_privacy(&account, false), Ok(()));
    assert!(!c.get_privacy(&account));
}

#[test]
fn test_enable_privacy_and_history() {
    let env = Env::default();
    let mut c = QuickexContract::new();
    let account = address_bytes(&env, &Address::generate(&env));

    assert_eq!(c.privacy_status(&account), None);
    assert_eq!(c.privacy_history(&account), Vec::<u32>::new());

    assert!(c.enable_privacy(&account, 2));
    assert_eq!(c.privacy_status(&account), Some(2));
    assert_eq!(c.privacy_history(&account), vec![2]);

    assert!(c.enable_privacy(&account, 3));
    assert_eq!(c.privacy_status(&account), Some(3));
    // Newest first.
    assert_eq!(c.privacy_history(&account), vec![3, 2]);
}

#[test]
fn test_create_escrow() {
    let env = Env::default();
    let mut c = QuickexContract::new();
    let from = address_bytes(&env, &Address::generate(&env));
    let to = address_bytes(&env, &Address::generate(&env));
    let amount: u64 = 1000;

    let escrow_id = c.create_escrow(&from, &to, amount);
    assert!(escrow_id > 0);
    assert_eq!(escrow_id, 1);

    let second_id = c.create_escrow(&from, &to, amount);
    assert_eq!(second_id, 2);
}
