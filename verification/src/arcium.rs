use vstd::prelude::*;

use crate::identity::Identity;
use vstd::slice::slice_to_vec;

verus! {

/// A confidential transaction as submitted: encrypted payload, ciphertext,
/// proof material, and the confidential-compute program it targets.
#[derive(Clone, Debug)]
pub struct ArciumTransactionData {
    pub encrypted_payload: Vec<u8>,
    pub ciphertext: Vec<u8>,
    pub proof: Vec<u8>,
    pub public_inputs: Vec<u8>,
    pub arcium_program_id: Option<Identity>,
    pub encryption_public_key: Vec<u8>,
}

#[derive(Clone, Debug)]
pub struct EncryptedWalletState {
    pub encrypted_balance: Vec<u8>,
    pub encrypted_nonce: Vec<u8>,
    pub ciphertext_commitment: Vec<u8>,
    pub encryption_public_key: Vec<u8>,
}

#[derive(Clone, Debug)]
pub struct ConfidentialTransferProof {
    pub zero_balance_proof: Vec<u8>,
    pub range_proof: Vec<u8>,
    pub ciphertext: Vec<u8>,
    pub public_encryption_key: Vec<u8>,
}

/// The admission policy for confidential transactions.
#[derive(Clone, Debug)]
pub struct ArciumConfig {
    pub arcium_program: Option<Identity>,
    pub encryption_enabled: bool,
    pub proof_required: bool,
    pub max_encrypted_state_size: usize,
}

impl Default for ArciumConfig {
    fn default() -> (r: Self)
        ensures
            r.arcium_program is None,
            r.encryption_enabled,
            r.proof_required,
            r.max_encrypted_state_size == 1024,
    {
        ArciumConfig {
            arcium_program: None,
            encryption_enabled: true,
            proof_required: true,
            max_encrypted_state_size: 1024,
        }
    }
}

#[derive(Clone, Copy, PartialEq, Eq, Structural, Debug)]
pub enum ArciumOperation {
    EncryptState,
    DecryptState,
    ConfidentialTransfer,
    EncryptedSwap,
    EncryptedStake,
    EncryptedVote,
}

/// Failures of the confidential-transaction admission policy.
#[derive(Clone, Copy, PartialEq, Eq, Structural, Debug)]
pub enum ConfidentialError {
    PayloadRequired,
    ProofRequired,
    CiphertextTooLarge,
}

/// What `validate_arcium_transaction` decides: a policy that demands
/// encryption refuses an empty encrypted payload, one that demands proofs
/// refuses an empty proof, and the ciphertext must stay within the
/// configured size.
pub open spec fn spec_validate_arcium_transaction(
    data: ArciumTransactionData,
    config: ArciumConfig,
) -> Result<(), ConfidentialError> {
    if config.encryption_enabled && data.encrypted_payload@.len() == 0 {
        Err(ConfidentialError::PayloadRequired)
    } else if config.proof_required && data.proof@.len() == 0 {
        Err(ConfidentialError::ProofRequired)
    } else if data.ciphertext@.len() > config.max_encrypted_state_size {
        Err(ConfidentialError::CiphertextTooLarge)
    } else {
        Ok(())
    }
}

/// Structural admission of a confidential transaction under `config`.
/// This gate checks shape only; proof verification and decryption are
/// external collaborators invoked after it passes.
pub fn validate_arcium_transaction(data: &ArciumTransactionData, config: &ArciumConfig) -> (r:
    Result<(), ConfidentialError>)
    ensures
        r == spec_validate_arcium_transaction(*data, *config),
{
    if config.encryption_enabled && data.encrypted_payload.len() == 0 {
        return Err(ConfidentialError::PayloadRequired);
    }
    if config.proof_required && data.proof.len() == 0 {
        return Err(ConfidentialError::ProofRequired);
    }
    if data.ciphertext.len() > config.max_encrypted_state_size {
        return Err(ConfidentialError::CiphertextTooLarge);
    }
    Ok(())
}

/// Structural stand-in for the external encryption engine: both inputs
/// must be non-empty, and the payload handed on is the plaintext
/// unchanged. No secrecy is provided here.
pub fn create_encrypted_payload(plaintext: &[u8], public_key: &[u8]) -> (r: Result<
    Vec<u8>,
    ConfidentialError,
>)
    ensures
        r matches Ok(v) ==> v@ == plaintext@ && plaintext@.len() > 0 && public_key@.len() > 0,
        r is Err <==> plaintext@.len() == 0 || public_key@.len() == 0,
        r is Err ==> r == Err::<Vec<u8>, ConfidentialError>(ConfidentialError::PayloadRequired),
{
    if plaintext.len() == 0 {
        return Err(ConfidentialError::PayloadRequired);
    }
    if public_key.len() == 0 {
        return Err(ConfidentialError::PayloadRequired);
    }
    Ok(slice_to_vec(plaintext))
}

/// Structural stand-in for the external proof verifier: the proof and its
/// public inputs must both be non-empty. No soundness is provided here.
pub fn verify_zero_knowledge_proof(proof: &[u8], public_inputs: &[u8]) -> (r: Result<
    (),
    ConfidentialError,
>)
    ensures
        r is Ok <==> proof@.len() > 0 && public_inputs@.len() > 0,
        r is Err ==> r == Err::<(), ConfidentialError>(ConfidentialError::ProofRequired),
{
    if proof.len() == 0 {
        return Err(ConfidentialError::ProofRequired);
    }
    if public_inputs.len() == 0 {
        return Err(ConfidentialError::ProofRequired);
    }
    Ok(())
}

} // verus!
