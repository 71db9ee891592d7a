use crosschain_hub::codec::{
    decode_signature_data, decode_wallet_data, encode_signature_data, encode_wallet_data,
};
use crosschain_hub::eidas::{ComplianceError, EidasLevel};
use crosschain_hub::identity::Identity;
use crosschain_hub::wallet::{
    derive_multi_chain_address, validate_wallet_transfer, verify_transaction_limits,
    TransactionSignatureData, Wallet, WalletConfig, WalletData,
};

fn test_wallet(level: EidasLevel) -> Wallet {
    Wallet {
        owner: Identity::new_from_array([7u8; 32]),
        created_at: 0,
        is_compliance_verified: true,
        eidas_level: level,
        public_key: vec![1, 2, 3],
        metadata: vec![],
    }
}

#[test]
fn test_wallet_default_config() {
    let config = WalletConfig::default();
    assert_eq!(config.min_balance, 0);
    assert_eq!(config.max_daily_transfer, u64::MAX);
    assert!(!config.require_eidas);
    assert!(!config.require_2fa);
}

#[test]
fn test_wallet_data_serialization() {
    let wallet_data = WalletData {
        public_key: vec![1, 2, 3, 4, 5],
        metadata: vec![6, 7, 8, 9, 10],
    };

    let serialized = encode_wallet_data(&wallet_data);
    let deserialized = decode_wallet_data(&serialized).unwrap();

    assert_eq!(wallet_data.public_key, deserialized.public_key);
    assert_eq!(wallet_data.metadata, deserialized.metadata);
}

#[test]
fn test_wallet_data_decode_rejects_truncation() {
    let wallet_data = WalletData {
        public_key: vec![1, 2, 3],
        metadata: vec![4],
    };
    let mut serialized = encode_wallet_data(&wallet_data);
    serialized.pop();
    assert!(decode_wallet_data(&serialized).is_err());
    assert!(decode_wallet_data(&[]).is_err());
}

#[test]
fn test_transaction_signature_data_serialization() {
    let sig_data = TransactionSignatureData {
        transaction_hash: vec![1u8; 32],
        amount: 1000,
        recipient: Identity::new_from_array([2u8; 32]),
        source_chain: 1,
        destination_chain: 10,
        nonce: 1,
    };

    let serialized = encode_signature_data(&sig_data);
    let deserialized = decode_signature_data(&serialized).unwrap();

    assert_eq!(sig_data.amount, deserialized.amount);
    assert_eq!(sig_data.source_chain, deserialized.source_chain);
    assert_eq!(sig_data.transaction_hash, deserialized.transaction_hash);
    assert_eq!(sig_data.recipient, deserialized.recipient);
    assert_eq!(sig_data.destination_chain, deserialized.destination_chain);
    assert_eq!(sig_data.nonce, deserialized.nonce);
}

#[test]
fn test_validate_wallet_transfer_rules() {
    let mut config = WalletConfig::default();

    // Basic tier is capped.
    let basic = test_wallet(EidasLevel::Basic);
    let r = validate_wallet_transfer(&basic, 100_000_001, &config);
    assert_eq!(r.unwrap_err(), ComplianceError::TierLimitExceeded);
    assert!(validate_wallet_transfer(&basic, 100_000_000, &config).is_ok());

    // A policy that demands a verified tier refuses unverified wallets.
    config.require_eidas = true;
    let unverified = test_wallet(EidasLevel::Unverified);
    let r = validate_wallet_transfer(&unverified, 1, &config);
    assert_eq!(r.unwrap_err(), ComplianceError::ComplianceRequired);
    assert!(validate_wallet_transfer(&test_wallet(EidasLevel::High), 1, &config).is_ok());
}

#[test]
fn test_verify_transaction_limits_rules() {
    let mut config = WalletConfig::default();
    config.max_daily_transfer = 1000;

    assert!(verify_transaction_limits(400, 600, &config).is_ok());
    let r = verify_transaction_limits(400, 601, &config);
    assert_eq!(r.unwrap_err(), ComplianceError::TierLimitExceeded);

    // The sum is compared without wrapping around.
    let r = verify_transaction_limits(u64::MAX, u64::MAX, &config);
    assert!(r.is_err());

    config.max_daily_transfer = u64::MAX;
    assert!(verify_transaction_limits(u64::MAX - 1, 1, &config).is_ok());
}

#[test]
fn test_derive_multi_chain_address_deterministic() {
    let master = Identity::new_from_array([3u8; 32]);
    let first = derive_multi_chain_address(&master, 1, 0);
    let second = derive_multi_chain_address(&master, 1, 0);
    match (first, second) {
        (Some(a), Some(b)) => assert_eq!(a, b),
        (None, None) => {},
        _ => panic!("derivation must be deterministic"),
    }
}

#[test]
fn test_derive_multi_chain_address_long_seed_yields_none() {
    // The decimal prefixes plus a 32-byte key in base58 exceed the
    // derivation scheme's single-seed length limit, so no address exists.
    let master = Identity::new_from_array([3u8; 32]);
    assert!(derive_multi_chain_address(&master, 1, 0).is_none());
}
