//! The commitment engine: round trip, sensitivity of each field, and the
//! digest's agreement with the host's own SHA-256 over the documented
//! preimage encoding.
use quickex::QuickexContract;
use soroban_sdk::testutils::Address as _;
use soroban_sdk::xdr::ToXdr;
use soroban_sdk::{Address, Bytes, Env};

fn address_bytes(env: &Env, a: &Address) -> Vec<u8> {
    let b = a.clone().to_xdr(env);
    let mut v = Vec::new();
    for x in b.iter() {
        v.push(x);
    }
    v
}

#[test]
fn test_commitment_cycle() {
    let env = Env::default();
    let owner = address_bytes(&env, &Address::generate(&env));
    let amount = 1_000_000i128;
    let salt = b"random_salt".to_vec();

    // Create commitment
    let commitment = QuickexContract::create_amount_commitment(&env, &owner, amount, &salt);

    // Verify correct commitment
    let is_valid = QuickexContract::verify_amount_commitment(&env, &commitment, &owner, amount, &salt);
    assert!(is_valid);

    // Verify incorrect amount
    let is_valid_bad_amount =
        QuickexContract::verify_amount_commitment(&env, &commitment, &owner, 2_000_000i128, &salt);
    assert!(!is_valid_bad_amount);

    // Verify incorrect salt
    let bad_salt = b"wrong_salt".to_vec();
    let is_valid_bad_salt =
        QuickexContract::verify_amount_commitment(&env, &commitment, &owner, amount, &bad_salt);
    assert!(!is_valid_bad_salt);
}

#[test]
fn test_commitment_sensitive_to_owner() {
    let env = Env::default();
    let owner = address_bytes(&env, &Address::generate(&env));
    let other = address_bytes(&env, &Address::generate(&env));
    let amount = 1_000i128;
    let salt = b"s".to_vec();

    let commitment = QuickexContract::create_amount_commitment(&env, &owner, amount, &salt);
    assert!(!QuickexContract::verify_amount_commitment(&env, &commitment, &other, amount, &salt));
}

#[test]
fn test_commitment_matches_host_hash() {
    // The digest must be bit-for-bit reproducible off-chain: claimant bytes,
    // then the 16-byte big-endian amount, then the salt, hashed with SHA-256.
    let env = Env::default();
    let owner_addr = Address::generate(&env);
    let owner = address_bytes(&env, &owner_addr);
    let amount: i128 = 1000;
    let salt = b"test_salt_123".to_vec();

    let mut data = Bytes::new(&env);
    data.append(&owner_addr.clone().to_xdr(&env));
    data.append(&Bytes::from_slice(&env, &amount.to_be_bytes()));
    data.append(&Bytes::from_slice(&env, &salt));
    let expected: [u8; 32] = env.crypto().sha256(&data).to_array();

    let commitment = QuickexContract::create_amount_commitment(&env, &owner, amount, &salt);
    assert_eq!(commitment, expected.to_vec());
}

#[test]
fn test_commitment_negative_amount_encoding() {
    // The big-endian encoding is two's complement, as i128::to_be_bytes has it.
    let env = Env::default();
    let owner = b"owner".to_vec();
    let amount: i128 = -42;
    let salt = b"s".to_vec();

    let mut preimage = owner.clone();
    preimage.extend_from_slice(&amount.to_be_bytes());
    preimage.extend_from_slice(&salt);
    let expected: [u8; 32] =
        env.crypto().sha256(&Bytes::from_slice(&env, &preimage)).to_array();

    let commitment = QuickexContract::create_amount_commitment(&env, &owner, amount, &salt);
    assert_eq!(commitment, expected.to_vec());
}

#[test]
fn test_commitment_empty_salt_and_claimant() {
    // The salt is an arbitrary-length byte string; empty is allowed.
    let env = Env::default();
    let owner: Vec<u8> = Vec::new();
    let salt: Vec<u8> = Vec::new();
    let amount: i128 = 5;

    let commitment = QuickexContract::create_amount_commitment(&env, &owner, amount, &salt);
    assert_eq!(commitment.len(), 32);
    assert!(QuickexContract::verify_amount_commitment(&env, &commitment, &owner, amount, &salt));

    // The preimage is then exactly the 16 amount bytes.
    let expected: [u8; 32] = env
        .crypto()
        .sha256(&Bytes::from_slice(&env, &amount.to_be_bytes()))
        .to_array();
    assert_eq!(commitment, expected.to_vec());
}

#[test]
fn test_commitment_extreme_amounts() {
    let env = Env::default();
    let owner = b"o".to_vec();
    let salt = b"s".to_vec();
    for amount in [i128::MAX, i128::MIN, 1i128, -1i128] {
        let mut preimage = owner.clone();
        preimage.extend_from_slice(&amount.to_be_bytes());
        preimage.extend_from_slice(&salt);
        let expected: [u8; 32] =
            env.crypto().sha256(&Bytes::from_slice(&env, &preimage)).to_array();
        let commitment = QuickexContract::create_amount_commitment(&env, &owner, amount, &salt);
        assert_eq!(commitment, expected.to_vec());
    }
}

#[test]
fn test_commitment_is_32_bytes_and_not_preimage() {
    let env = Env::default();
    let owner = b"o".to_vec();
    let salt = b"s".to_vec();
    let commitment = QuickexContract::create_amount_commitment(&env, &owner, 1, &salt);
    assert_eq!(commitment.len(), 32);
    // The digest is not the concatenated preimage handed back.
    let mut preimage = owner.clone();
    preimage.extend_from_slice(&1i128.to_be_bytes());
    preimage.extend_from_slice(&salt);
    assert_ne!(commitment, preimage);
}
