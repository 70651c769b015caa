//! The legacy privacy contract: switches, levels, history, the placeholder
//! escrow directory and the error messages.
use quickex::quicksilver::{Error, QuickSilverContractV0};

#[test]
fn test_quicksilver_set_and_get_privacy() {
    let mut c = QuickSilverContractV0::new();
    let owner = b"owner_1".to_vec();

    assert!(!c.get_privacy(&owner));
    assert_eq!(c.set_privacy(&owner, true), Ok(()));
    assert!(c.get_privacy(&owner));
    assert_eq!(c.set_privacy(&owner, false), Ok(()));
    assert!(!c.get_privacy(&owner));
}

#[test]
fn test_quicksilver_enable_privacy_and_history() {
    let mut c = QuickSilverContractV0::new();
    let account = b"account_1".to_vec();

    assert_eq!(c.privacy_status(&account), None);
    assert_eq!(c.privacy_history(&account), Vec::<u32>::new());

    assert!(c.enable_privacy(&account, 1));
    assert!(c.enable_privacy(&account, 3));
    assert_eq!(c.privacy_status(&account), Some(3));
    assert_eq!(c.privacy_history(&account), vec![3, 1]);
}

#[test]
fn test_quicksilver_create_escrow_ids() {
    let mut c = QuickSilverContractV0::new();
    let from = b"from".to_vec();
    let to = b"to".to_vec();

    // The id is the ledger timestamp, or 1 when the timestamp is 0.
    assert_eq!(c.create_escrow(&from, &to, 1000, 0), 1);
    assert_eq!(c.create_escrow(&from, &to, 1000, 7777), 7777);
}

#[test]
fn test_quicksilver_health_check() {
    assert!(QuickSilverContractV0::health_check());
}

#[test]
fn test_error_messages() {
    assert_eq!(Error::Unauthorized.to_string(), "Unauthorized access");
    assert_eq!(Error::InvalidInput.to_string(), "Invalid input parameter");
    assert_eq!(Error::StorageError.to_string(), "Storage operation failed");
}
