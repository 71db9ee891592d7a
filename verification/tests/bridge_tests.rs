use crosschain_hub::bridge::{
    calculate_cross_chain_fee, cancel, complete, confirm, fail, initiate,
    validate_cross_chain_transfer, verify_relay_confirmation, BridgeConfig,
    CrossChainTransferData, QuorumError, RelayConfirmation, TokenConfig, TransferError,
    TransferStatus,
};
use crosschain_hub::eidas::EidasLevel;
use crosschain_hub::hub::CrossChainConfig;
use crosschain_hub::identity::Identity;
use crosschain_hub::wallet::Wallet;

fn test_token(enabled: bool) -> TokenConfig {
    TokenConfig {
        mint: None,
        symbol: "TST".to_string(),
        decimals: 9,
        max_transfer: u64::MAX,
        min_transfer: 0,
        enabled,
    }
}

fn test_bridge(emergency_breaker: bool, tokens: Vec<TokenConfig>) -> BridgeConfig {
    BridgeConfig {
        min_confirmation_blocks: 12,
        max_confirmation_blocks: 100,
        relayer_fee: 1000,
        protocol_fee: 500,
        emergency_breaker,
        supported_tokens: tokens,
    }
}

fn test_wallet(level: EidasLevel) -> Wallet {
    Wallet {
        owner: Identity::new_from_array([7u8; 32]),
        created_at: 0,
        is_compliance_verified: true,
        eidas_level: level,
        public_key: vec![],
        metadata: vec![],
    }
}

fn test_transfer(amount: u64, status: TransferStatus) -> CrossChainTransferData {
    CrossChainTransferData {
        sender: Identity::new_from_array([7u8; 32]),
        recipient: Identity::new_from_array([8u8; 32]),
        amount,
        destination_chain: 10,
        source_chain: 1,
        token_address: None,
        fee: 0,
        nonce: 1,
        timestamp: 1_700_000_000,
        status,
    }
}

fn test_confirmation(relayer_byte: u8) -> RelayConfirmation {
    RelayConfirmation {
        relayer: Identity::new_from_array([relayer_byte; 32]),
        tx_hash: vec![1, 2, 3],
        block_number: 42,
        timestamp: 1_700_000_000,
        signatures: vec![vec![9, 9]],
        signers: vec![Identity::new_from_array([relayer_byte; 32])],
    }
}

#[test]
fn test_bridge_config() {
    let config = BridgeConfig {
        min_confirmation_blocks: 12,
        max_confirmation_blocks: 100,
        relayer_fee: 1000,
        protocol_fee: 500,
        emergency_breaker: false,
        supported_tokens: vec![],
    };

    assert!(config.relayer_fee > 0);
    assert!(config.protocol_fee > 0);
    assert!(config.min_confirmation_blocks > 0);
}

#[test]
fn test_cross_chain_fee_calculation() {
    let fee = calculate_cross_chain_fee(1_000_000, 25, 1000);
    assert!(fee > 0);

    let fee_no_relayer = calculate_cross_chain_fee(1_000_000, 25, 0);
    assert!(fee_no_relayer > 0);
}

#[test]
fn test_fee_exact_values() {
    // floor(1_000_000 * 25 / 10000) = 2500, plus the relayer's 1000.
    assert_eq!(calculate_cross_chain_fee(1_000_000, 25, 1000), 3500);
    assert_eq!(calculate_cross_chain_fee(1_000_000, 25, 0), 2500);
    // Rounds down: floor(999 * 25 / 10000) = 2.
    assert_eq!(calculate_cross_chain_fee(999, 25, 0), 2);
    assert_eq!(calculate_cross_chain_fee(0, 10000, 0), 0);
    // 100% of the amount.
    assert_eq!(calculate_cross_chain_fee(12345, 10000, 0), 12345);
}

#[test]
fn test_fee_monotone_and_bounded_samples() {
    let small = calculate_cross_chain_fee(1_000, 25, 7);
    let large = calculate_cross_chain_fee(2_000, 25, 7);
    assert!(small <= large);
    for bps in [0u16, 1, 25, 9999, 10000] {
        let amount = 123_456_789u64;
        assert!(calculate_cross_chain_fee(amount, bps, 0) <= amount);
    }
}

#[test]
fn test_quorum_threshold() {
    let confirmations = vec![test_confirmation(1), test_confirmation(2)];
    let result = verify_relay_confirmation(&confirmations, 3);
    assert_eq!(
        result.unwrap_err(),
        QuorumError::InsufficientConfirmations
    );

    let confirmations = vec![
        test_confirmation(1),
        test_confirmation(2),
        test_confirmation(3),
    ];
    assert!(verify_relay_confirmation(&confirmations, 3).is_ok());
    assert!(verify_relay_confirmation(&confirmations, 0).is_ok());
    assert!(verify_relay_confirmation(&[], 0).is_ok());
    assert!(verify_relay_confirmation(&[], 1).is_err());
}

#[test]
fn test_validate_cross_chain_transfer_checks() {
    let no_tokens = test_bridge(false, vec![test_token(false)]);
    let r = validate_cross_chain_transfer(1, 10, &no_tokens, &EidasLevel::High);
    assert_eq!(r.unwrap_err(), TransferError::NoEnabledTokens);

    let bridge = test_bridge(false, vec![test_token(false), test_token(true)]);
    let r = validate_cross_chain_transfer(1_000_000_001, 10, &bridge, &EidasLevel::Unverified);
    assert_eq!(r.unwrap_err(), TransferError::ComplianceRequired);

    let r = validate_cross_chain_transfer(1_000_000_001, 10, &bridge, &EidasLevel::Basic);
    assert!(r.is_ok());

    let r = validate_cross_chain_transfer(1_000_000_000, 10, &bridge, &EidasLevel::Unverified);
    assert!(r.is_ok());
}

#[test]
fn test_initiate_success() {
    let config = CrossChainConfig::default();
    let bridge = test_bridge(false, vec![test_token(true)]);
    let wallet = test_wallet(EidasLevel::Substantial);
    let transfer = test_transfer(1_000_000, TransferStatus::Pending);

    let updated = initiate(&transfer, &config, &bridge, &wallet).unwrap();
    assert_eq!(updated.status, TransferStatus::Initiated);
    // floor(1_000_000 * 25 / 10000) + 1000 relayer fee.
    assert_eq!(updated.fee, 3500);
    assert_eq!(updated.amount, transfer.amount);
    assert_eq!(updated.nonce, transfer.nonce);
}

#[test]
fn test_initiate_refusals() {
    let config = CrossChainConfig::default();
    let bridge = test_bridge(false, vec![test_token(true)]);
    let wallet = test_wallet(EidasLevel::Substantial);

    let paused_bridge = test_bridge(true, vec![test_token(true)]);
    let transfer = test_transfer(1_000_000, TransferStatus::Pending);
    let r = initiate(&transfer, &config, &paused_bridge, &wallet);
    assert_eq!(r.unwrap_err(), TransferError::BridgePaused);

    let no_tokens = test_bridge(false, vec![]);
    let r = initiate(&transfer, &config, &no_tokens, &wallet);
    assert_eq!(r.unwrap_err(), TransferError::NoEnabledTokens);

    let low = test_transfer(999, TransferStatus::Pending);
    let r = initiate(&low, &config, &bridge, &wallet);
    assert_eq!(r.unwrap_err(), TransferError::AmountTooLow);

    let high = test_transfer(1_000_000_001, TransferStatus::Pending);
    let r = initiate(&high, &config, &bridge, &wallet);
    assert_eq!(r.unwrap_err(), TransferError::AmountTooHigh);

    let already_done = test_transfer(1_000_000, TransferStatus::Completed);
    let r = initiate(&already_done, &config, &bridge, &wallet);
    assert_eq!(r.unwrap_err(), TransferError::InvalidState);
}

#[test]
fn test_initiate_large_amount_needs_tier() {
    let mut config = CrossChainConfig::default();
    config.max_cross_chain_amount = u64::MAX;
    let bridge = test_bridge(false, vec![test_token(true)]);
    let transfer = test_transfer(1_000_000_001, TransferStatus::Pending);

    let unverified = test_wallet(EidasLevel::Unverified);
    let r = initiate(&transfer, &config, &bridge, &unverified);
    assert_eq!(r.unwrap_err(), TransferError::ComplianceRequired);

    let verified = test_wallet(EidasLevel::Basic);
    assert!(initiate(&transfer, &config, &bridge, &verified).is_ok());
}

#[test]
fn test_confirm_requires_quorum() {
    let transfer = test_transfer(1_000_000, TransferStatus::Initiated);
    let confirmations = vec![test_confirmation(1), test_confirmation(2)];
    let r = confirm(&transfer, &confirmations, 3);
    assert_eq!(r.unwrap_err(), TransferError::InsufficientConfirmations);

    let confirmations = vec![
        test_confirmation(1),
        test_confirmation(2),
        test_confirmation(3),
    ];
    let updated = confirm(&transfer, &confirmations, 3).unwrap();
    assert_eq!(updated.status, TransferStatus::Confirmed);
}

#[test]
fn test_confirm_requires_initiated() {
    let transfer = test_transfer(1_000_000, TransferStatus::Pending);
    let r = confirm(&transfer, &[test_confirmation(1)], 1);
    assert_eq!(r.unwrap_err(), TransferError::InvalidState);
}

#[test]
fn test_complete_requires_authority() {
    let mut config = CrossChainConfig::default();
    let authority = Identity::new_from_array([9u8; 32]);
    config.bridge_authority = Some(authority);

    let transfer = test_transfer(1_000_000, TransferStatus::Confirmed);
    let updated = complete(&transfer, &authority, &config).unwrap();
    assert_eq!(updated.status, TransferStatus::Completed);

    let stranger = Identity::new_from_array([10u8; 32]);
    let r = complete(&transfer, &stranger, &config);
    assert_eq!(r.unwrap_err(), TransferError::Unauthorized);

    let unset = CrossChainConfig::default();
    let r = complete(&transfer, &authority, &unset);
    assert_eq!(r.unwrap_err(), TransferError::Unauthorized);

    let pending = test_transfer(1_000_000, TransferStatus::Pending);
    let r = complete(&pending, &authority, &config);
    assert_eq!(r.unwrap_err(), TransferError::InvalidState);
}

#[test]
fn test_cancel_and_fail_edges() {
    let pending = test_transfer(1, TransferStatus::Pending);
    assert_eq!(cancel(&pending).unwrap().status, TransferStatus::Cancelled);
    assert_eq!(fail(&pending).unwrap().status, TransferStatus::Failed);

    let initiated = test_transfer(1, TransferStatus::Initiated);
    assert_eq!(cancel(&initiated).unwrap().status, TransferStatus::Cancelled);
    assert_eq!(fail(&initiated).unwrap().status, TransferStatus::Failed);

    let confirmed = test_transfer(1, TransferStatus::Confirmed);
    assert_eq!(cancel(&confirmed).unwrap_err(), TransferError::InvalidState);
    assert_eq!(fail(&confirmed).unwrap().status, TransferStatus::Failed);
}

#[test]
fn test_terminal_states_are_fixed_points() {
    // Double cancel and double fail are no-op successes.
    let cancelled = test_transfer(1, TransferStatus::Cancelled);
    assert_eq!(cancel(&cancelled).unwrap().status, TransferStatus::Cancelled);
    let failed = test_transfer(1, TransferStatus::Failed);
    assert_eq!(fail(&failed).unwrap().status, TransferStatus::Failed);

    // No other operation leaves a terminal state.
    assert_eq!(fail(&cancelled).unwrap_err(), TransferError::InvalidState);
    assert_eq!(cancel(&failed).unwrap_err(), TransferError::InvalidState);
    let completed = test_transfer(1, TransferStatus::Completed);
    assert_eq!(cancel(&completed).unwrap_err(), TransferError::InvalidState);
    assert_eq!(fail(&completed).unwrap_err(), TransferError::InvalidState);

    let config = CrossChainConfig::default();
    let bridge = test_bridge(false, vec![test_token(true)]);
    let wallet = test_wallet(EidasLevel::High);
    assert_eq!(
        initiate(&completed, &config, &bridge, &wallet).unwrap_err(),
        TransferError::InvalidState
    );
    assert_eq!(
        confirm(&completed, &[test_confirmation(1)], 0).unwrap_err(),
        TransferError::InvalidState
    );
}

#[test]
fn test_lifecycle_happy_path() {
    let mut config = CrossChainConfig::default();
    let authority = Identity::new_from_array([9u8; 32]);
    config.bridge_authority = Some(authority);
    let bridge = test_bridge(false, vec![test_token(true)]);
    let wallet = test_wallet(EidasLevel::Substantial);

    let transfer = test_transfer(5_000_000, TransferStatus::Pending);
    let initiated = initiate(&transfer, &config, &bridge, &wallet).unwrap();
    let confirmed = confirm(&initiated, &[test_confirmation(1), test_confirmation(2)], 2).unwrap();
    let completed = complete(&confirmed, &authority, &config).unwrap();
    assert_eq!(completed.status, TransferStatus::Completed);
    assert_eq!(completed.amount, 5_000_000);
}
