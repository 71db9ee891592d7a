use crosschain_hub::arcium::{
    create_encrypted_payload, validate_arcium_transaction, verify_zero_knowledge_proof,
    ArciumConfig, ArciumTransactionData, ConfidentialError,
};

fn test_tx(
    encrypted_payload: Vec<u8>,
    ciphertext: Vec<u8>,
    proof: Vec<u8>,
) -> ArciumTransactionData {
    ArciumTransactionData {
        encrypted_payload,
        ciphertext,
        proof,
        public_inputs: vec![],
        arcium_program_id: None,
        encryption_public_key: vec![],
    }
}

#[test]
fn test_arcium_config_default() {
    let config = ArciumConfig::default();
    assert!(config.encryption_enabled);
    assert!(config.proof_required);
    assert!(config.max_encrypted_state_size > 0);
}

#[test]
fn test_validate_arcium_transaction() {
    let config = ArciumConfig {
        encryption_enabled: true,
        proof_required: true,
        ..Default::default()
    };

    let tx_data = test_tx(vec![1, 2, 3, 4], vec![], vec![1, 2, 3, 4]);

    let result = validate_arcium_transaction(&tx_data, &config);
    assert!(result.is_ok());
}

#[test]
fn test_validate_arcium_transaction_no_encryption() {
    let config = ArciumConfig {
        encryption_enabled: false,
        proof_required: false,
        ..Default::default()
    };

    let tx_data = test_tx(vec![], vec![], vec![]);

    let result = validate_arcium_transaction(&tx_data, &config);
    assert!(result.is_ok());
}

#[test]
fn test_proof_required_when_payload_present() {
    let policy = ArciumConfig {
        encryption_enabled: true,
        proof_required: true,
        ..Default::default()
    };
    let request = test_tx(vec![1, 2, 3], vec![], vec![]);
    let result = validate_arcium_transaction(&request, &policy);
    assert_eq!(result.unwrap_err(), ConfidentialError::ProofRequired);
}

#[test]
fn test_payload_required() {
    let policy = ArciumConfig {
        encryption_enabled: true,
        proof_required: false,
        ..Default::default()
    };
    let request = test_tx(vec![], vec![], vec![1]);
    let result = validate_arcium_transaction(&request, &policy);
    assert_eq!(result.unwrap_err(), ConfidentialError::PayloadRequired);
}

#[test]
fn test_ciphertext_too_large() {
    let policy = ArciumConfig {
        encryption_enabled: false,
        proof_required: false,
        max_encrypted_state_size: 4,
        ..Default::default()
    };
    let request = test_tx(vec![], vec![1, 2, 3, 4, 5], vec![]);
    let result = validate_arcium_transaction(&request, &policy);
    assert_eq!(result.unwrap_err(), ConfidentialError::CiphertextTooLarge);

    let at_limit = test_tx(vec![], vec![1, 2, 3, 4], vec![]);
    assert!(validate_arcium_transaction(&at_limit, &policy).is_ok());
}

#[test]
fn test_create_encrypted_payload_checks() {
    let payload = create_encrypted_payload(&[1, 2, 3], &[9, 9]).unwrap();
    assert_eq!(payload, vec![1, 2, 3]);

    let r = create_encrypted_payload(&[], &[9, 9]);
    assert_eq!(r.unwrap_err(), ConfidentialError::PayloadRequired);

    let r = create_encrypted_payload(&[1], &[]);
    assert_eq!(r.unwrap_err(), ConfidentialError::PayloadRequired);
}

#[test]
fn test_verify_zero_knowledge_proof_checks() {
    assert!(verify_zero_knowledge_proof(&[1], &[2]).is_ok());

    let r = verify_zero_knowledge_proof(&[], &[2]);
    assert_eq!(r.unwrap_err(), ConfidentialError::ProofRequired);

    let r = verify_zero_knowledge_proof(&[1], &[]);
    assert_eq!(r.unwrap_err(), ConfidentialError::ProofRequired);
}
