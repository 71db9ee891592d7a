use vstd::prelude::*;

use crate::eidas::{EidasLevel, LARGE_TRANSFER_THRESHOLD};
use crate::hub::CrossChainConfig;
use crate::identity::Identity;
use crate::wallet::Wallet;
use vstd::arithmetic::div_mod::{lemma_div_is_ordered, lemma_div_multiples_vanish};
use vstd::arithmetic::mul::lemma_mul_inequality;

verus! {

/// Lifecycle stage of one cross-ledger transfer.
#[derive(Clone, Copy, PartialEq, Eq, Structural, Debug)]
pub enum TransferStatus {
    Pending,
    Initiated,
    Confirmed,
    Completed,
    Failed,
    Cancelled,
}

/// One cross-ledger transfer record, mutated only through the state
/// machine below.
#[derive(Clone, Copy, Debug)]
pub struct CrossChainTransferData {
    pub sender: Identity,
    pub recipient: Identity,
    pub amount: u64,
    pub destination_chain: u64,
    pub source_chain: u64,
    pub token_address: Option<Identity>,
    pub fee: u64,
    pub nonce: u64,
    pub timestamp: i64,
    pub status: TransferStatus,
}

/// One token the bridge may carry.
#[derive(Clone, Debug)]
pub struct TokenConfig {
    pub mint: Option<Identity>,
    pub symbol: String,
    pub decimals: u8,
    pub max_transfer: u64,
    pub min_transfer: u64,
    pub enabled: bool,
}

/// Operating parameters of the bridge.
#[derive(Clone, Debug)]
pub struct BridgeConfig {
    pub min_confirmation_blocks: u64,
    pub max_confirmation_blocks: u64,
    pub relayer_fee: u64,
    pub protocol_fee: u64,
    pub emergency_breaker: bool,
    pub supported_tokens: Vec<TokenConfig>,
}

/// One relayer's attestation that the source-ledger event happened. The
/// signature list and the signer list are index-aligned, so a well-formed
/// confirmation has one signer per signature.
#[derive(Clone, Debug)]
pub struct RelayConfirmation {
    pub relayer: Identity,
    pub tx_hash: Vec<u8>,
    pub block_number: u64,
    pub timestamp: i64,
    pub signatures: Vec<Vec<u8>>,
    pub signers: Vec<Identity>,
}

impl RelayConfirmation {
    /// Well-formedness: one signer per signature.
    pub open spec fn wf(&self) -> bool {
        self.signatures@.len() == self.signers@.len()
    }
}

/// Failures of the transfer state machine.
#[derive(Clone, Copy, PartialEq, Eq, Structural, Debug)]
pub enum TransferError {
    BridgePaused,
    NoEnabledTokens,
    AmountTooLow,
    AmountTooHigh,
    ComplianceRequired,
    Unauthorized,
    InvalidState,
    InsufficientConfirmations,
}

/// Failure of the relay quorum check.
#[derive(Clone, Copy, PartialEq, Eq, Structural, Debug)]
pub enum QuorumError {
    InsufficientConfirmations,
}

/// The fee owed on a transfer of `amount`: the protocol's share, a floor
/// of `protocol_fee_bps` basis points of the amount, plus the relayer's
/// flat fee.
pub open spec fn spec_fee(amount: u64, protocol_fee_bps: u16, relayer_fee: u64) -> int {
    (amount * protocol_fee_bps) / 10000 + relayer_fee
}

/// Protocol-plus-relayer fee on `amount`. Total for every amount and
/// basis-point value whose fee fits the machine word; basis points above
/// 10000 are accepted and yield a fee above the amount.
pub fn calculate_cross_chain_fee(amount: u64, protocol_fee_bps: u16, relayer_fee: u64) -> (fee:
    u64)
    requires
        spec_fee(amount, protocol_fee_bps, relayer_fee) <= u64::MAX,
    ensures
        fee == spec_fee(amount, protocol_fee_bps, relayer_fee),
{
    proof {
        lemma_mul_inequality(amount as int, u64::MAX as int, protocol_fee_bps as int);
    }
    let protocol_fee = ((amount as u128 * protocol_fee_bps as u128) / 10000) as u64;
    protocol_fee + relayer_fee
}

/// Fee law: with the basis points and relayer fee fixed, a larger amount
/// never yields a smaller fee.
pub proof fn lemma_fee_monotonic(amount1: u64, amount2: u64, protocol_fee_bps: u16, relayer_fee: u64)
    requires
        amount1 < amount2,
    ensures
        spec_fee(amount1, protocol_fee_bps, relayer_fee) <= spec_fee(
            amount2,
            protocol_fee_bps,
            relayer_fee,
        ),
{
    lemma_mul_inequality(amount1 as int, amount2 as int, protocol_fee_bps as int);
    lemma_div_is_ordered(
        amount1 as int * protocol_fee_bps as int,
        amount2 as int * protocol_fee_bps as int,
        10000,
    );
}

/// Fee law: with basis points at most 10000 (one hundred percent) and no
/// relayer fee, the fee never exceeds the amount itself.
pub proof fn lemma_fee_bounded(amount: u64, protocol_fee_bps: u16)
    requires
        protocol_fee_bps <= 10000,
    ensures
        spec_fee(amount, protocol_fee_bps, 0) <= amount,
{
    lemma_mul_inequality(protocol_fee_bps as int, 10000, amount as int);
    assert(amount as int * protocol_fee_bps as int == protocol_fee_bps as int * amount as int);
    lemma_div_is_ordered(amount as int * protocol_fee_bps as int, 10000 * amount as int, 10000);
    lemma_div_multiples_vanish(amount as int, 10000);
}

/// Whether at least one token is enabled for bridging.
pub open spec fn spec_has_enabled_token(config: BridgeConfig) -> bool {
    exists|i: int| 0 <= i < config.supported_tokens@.len() && config.supported_tokens@[i].enabled
}

fn has_enabled_token(config: &BridgeConfig) -> (r: bool)
    ensures
        r == spec_has_enabled_token(*config),
{
    let n = config.supported_tokens.len();
    let mut i: usize = 0;
    while i < n
        invariant
            n == config.supported_tokens@.len(),
            0 <= i <= n,
            forall|j: int| 0 <= j < i ==> !config.supported_tokens@[j].enabled,
        decreases n - i,
    {
        if config.supported_tokens[i].enabled {
            return true;
        }
        i += 1;
    }
    false
}

/// What `validate_cross_chain_transfer` decides: the bridge must carry at
/// least one enabled token, and an unverified identity may not move more
/// than `LARGE_TRANSFER_THRESHOLD`.
pub open spec fn spec_validate_cross_chain_transfer(
    amount: u64,
    config: BridgeConfig,
    eidas_level: EidasLevel,
) -> Result<(), TransferError> {
    if !spec_has_enabled_token(config) {
        Err(TransferError::NoEnabledTokens)
    } else if eidas_level is Unverified && amount > LARGE_TRANSFER_THRESHOLD {
        Err(TransferError::ComplianceRequired)
    } else {
        Ok(())
    }
}

/// Admission of a cross-ledger transfer of `amount` to `destination_chain`
/// under `config` by an identity of tier `eidas_level`.
pub fn validate_cross_chain_transfer(
    amount: u64,
    destination_chain: u64,
    config: &BridgeConfig,
    eidas_level: &EidasLevel,
) -> (r: Result<(), TransferError>)
    ensures
        r == spec_validate_cross_chain_transfer(amount, *config, *eidas_level),
{
    if !has_enabled_token(config) {
        return Err(TransferError::NoEnabledTokens);
    }
    if matches!(eidas_level, EidasLevel::Unverified) && amount > LARGE_TRANSFER_THRESHOLD {
        return Err(TransferError::ComplianceRequired);
    }
    Ok(())
}

/// Quorum rule: a set of confirmations meets threshold `t` exactly when it
/// holds at least `t` entries. Entries are counted as submitted; duplicate
/// relayers are not collapsed.
pub fn verify_relay_confirmation(
    confirmations: &[RelayConfirmation],
    required_signatures: u8,
) -> (r: Result<(), QuorumError>)
    ensures
        r is Ok <==> confirmations@.len() >= required_signatures as int,
        r is Err ==> r == Err::<(), QuorumError>(QuorumError::InsufficientConfirmations),
{
    if confirmations.len() < required_signatures as usize {
        return Err(QuorumError::InsufficientConfirmations);
    }
    Ok(())
}

/// Whether `s` is a terminal status: no operation leaves it.
pub open spec fn is_terminal(s: TransferStatus) -> bool {
    s is Completed || s is Failed || s is Cancelled
}

/// The transfer lifecycle graph. A status only ever advances along these
/// edges: Pending to Initiated to Confirmed to Completed; any of the first
/// three may fall to Failed; Pending and Initiated may be Cancelled.
pub open spec fn valid_transition(from: TransferStatus, to: TransferStatus) -> bool {
    ||| (from is Pending && to is Initiated)
    ||| (from is Initiated && to is Confirmed)
    ||| (from is Confirmed && to is Completed)
    ||| ((from is Pending || from is Initiated || from is Confirmed) && to is Failed)
    ||| ((from is Pending || from is Initiated) && to is Cancelled)
}

/// Safety law: a terminal status has no outgoing edge in the lifecycle
/// graph, so no sequence of operations leaves it.
pub proof fn lemma_terminal_no_transition(from: TransferStatus, to: TransferStatus)
    requires
        is_terminal(from),
    ensures
        !valid_transition(from, to),
{
}

/// What `initiate` decides, in order: the transfer must still be Pending;
/// the emergency breaker must be off; some token must be enabled; the
/// amount must lie in the configured window; large amounts need a verified
/// tier. On success the transfer carries the computed fee and moves to
/// Initiated.
pub open spec fn spec_initiate(
    transfer: CrossChainTransferData,
    config: CrossChainConfig,
    bridge: BridgeConfig,
    wallet: Wallet,
) -> Result<CrossChainTransferData, TransferError> {
    if !(transfer.status is Pending) {
        Err(TransferError::InvalidState)
    } else if bridge.emergency_breaker {
        Err(TransferError::BridgePaused)
    } else if !spec_has_enabled_token(bridge) {
        Err(TransferError::NoEnabledTokens)
    } else if transfer.amount < config.min_cross_chain_amount {
        Err(TransferError::AmountTooLow)
    } else if transfer.amount > config.max_cross_chain_amount {
        Err(TransferError::AmountTooHigh)
    } else if wallet.eidas_level is Unverified && transfer.amount > LARGE_TRANSFER_THRESHOLD {
        Err(TransferError::ComplianceRequired)
    } else {
        Ok(
            (CrossChainTransferData {
                status: TransferStatus::Initiated,
                fee: spec_fee(transfer.amount, config.fee_basis_points, bridge.relayer_fee) as u64,
                ..transfer
            }),
        )
    }
}

/// Admits a Pending transfer, prices it, and moves it to Initiated; on any
/// refusal the transfer is left untouched. Every status change taken is an
/// edge of the lifecycle graph.
pub fn initiate(
    transfer: &CrossChainTransferData,
    config: &CrossChainConfig,
    bridge: &BridgeConfig,
    wallet: &Wallet,
) -> (r: Result<CrossChainTransferData, TransferError>)
    requires
        transfer.amount <= config.max_cross_chain_amount ==> spec_fee(
            transfer.amount,
            config.fee_basis_points,
            bridge.relayer_fee,
        ) <= u64::MAX,
    ensures
        r == spec_initiate(*transfer, *config, *bridge, *wallet),
        r matches Ok(t) ==> valid_transition(transfer.status, t.status) && t.status is Initiated,
{
    if !matches!(transfer.status, TransferStatus::Pending) {
        return Err(TransferError::InvalidState);
    }
    if bridge.emergency_breaker {
        return Err(TransferError::BridgePaused);
    }
    if !has_enabled_token(bridge) {
        return Err(TransferError::NoEnabledTokens);
    }
    if transfer.amount < config.min_cross_chain_amount {
        return Err(TransferError::AmountTooLow);
    }
    if transfer.amount > config.max_cross_chain_amount {
        return Err(TransferError::AmountTooHigh);
    }
    if matches!(wallet.eidas_level, EidasLevel::Unverified) && transfer.amount
        > LARGE_TRANSFER_THRESHOLD {
        return Err(TransferError::ComplianceRequired);
    }
    let fee = calculate_cross_chain_fee(transfer.amount, config.fee_basis_points, bridge.relayer_fee);
    let mut updated = *transfer;
    updated.fee = fee;
    updated.status = TransferStatus::Initiated;
    Ok(updated)
}

/// What `confirm` decides: the transfer must be Initiated, and the
/// confirmations must meet the threshold; then it moves to Confirmed. On a
/// short quorum the transfer is unchanged and the caller may retry with
/// more confirmations.
pub open spec fn spec_confirm(
    transfer: CrossChainTransferData,
    n_confirmations: int,
    required_signatures: u8,
) -> Result<CrossChainTransferData, TransferError> {
    if !(transfer.status is Initiated) {
        Err(TransferError::InvalidState)
    } else if n_confirmations < required_signatures {
        Err(TransferError::InsufficientConfirmations)
    } else {
        Ok((CrossChainTransferData { status: TransferStatus::Confirmed, ..transfer }))
    }
}

/// Applies the quorum rule to an Initiated transfer and moves it to
/// Confirmed. Every status change taken is an edge of the lifecycle graph.
pub fn confirm(
    transfer: &CrossChainTransferData,
    confirmations: &[RelayConfirmation],
    required_signatures: u8,
) -> (r: Result<CrossChainTransferData, TransferError>)
    ensures
        r == spec_confirm(*transfer, confirmations@.len() as int, required_signatures),
        r matches Ok(t) ==> valid_transition(transfer.status, t.status) && t.status is Confirmed,
{
    if !matches!(transfer.status, TransferStatus::Initiated) {
        return Err(TransferError::InvalidState);
    }
    if verify_relay_confirmation(confirmations, required_signatures).is_err() {
        return Err(TransferError::InsufficientConfirmations);
    }
    let mut updated = *transfer;
    updated.status = TransferStatus::Confirmed;
    Ok(updated)
}

/// What `complete` decides: the transfer must be Confirmed and the caller
/// must be the configured bridge authority; then it moves to Completed. An
/// unset authority authorizes no one.
pub open spec fn spec_complete(
    transfer: CrossChainTransferData,
    authority: Identity,
    config: CrossChainConfig,
) -> Result<CrossChainTransferData, TransferError> {
    if !(transfer.status is Confirmed) {
        Err(TransferError::InvalidState)
    } else if !(config.bridge_authority matches Some(a) && a@ == authority@) {
        Err(TransferError::Unauthorized)
    } else {
        Ok((CrossChainTransferData { status: TransferStatus::Completed, ..transfer }))
    }
}

/// Finishes a Confirmed transfer on the bridge authority's word. Every
/// status change taken is an edge of the lifecycle graph.
pub fn complete(
    transfer: &CrossChainTransferData,
    authority: &Identity,
    config: &CrossChainConfig,
) -> (r: Result<CrossChainTransferData, TransferError>)
    ensures
        r == spec_complete(*transfer, *authority, *config),
        r matches Ok(t) ==> valid_transition(transfer.status, t.status) && t.status is Completed,
{
    if !matches!(transfer.status, TransferStatus::Confirmed) {
        return Err(TransferError::InvalidState);
    }
    let authorized = match &config.bridge_authority {
        Some(a) => *a == *authority,
        None => false,
    };
    if !authorized {
        return Err(TransferError::Unauthorized);
    }
    let mut updated = *transfer;
    updated.status = TransferStatus::Completed;
    Ok(updated)
}

/// What `cancel` decides: cancelling an already Cancelled transfer is a
/// no-op success; cancelling from Pending or Initiated moves to Cancelled;
/// other statuses refuse.
pub open spec fn spec_cancel(transfer: CrossChainTransferData) -> Result<
    CrossChainTransferData,
    TransferError,
> {
    if transfer.status is Cancelled {
        Ok(transfer)
    } else if transfer.status is Pending || transfer.status is Initiated {
        Ok((CrossChainTransferData { status: TransferStatus::Cancelled, ..transfer }))
    } else {
        Err(TransferError::InvalidState)
    }
}

/// Cancels a transfer that has not advanced past Initiated; idempotent on
/// an already Cancelled transfer. Terminal statuses are fixed points:
/// every status change taken is an edge of the lifecycle graph.
pub fn cancel(transfer: &CrossChainTransferData) -> (r: Result<
    CrossChainTransferData,
    TransferError,
>)
    ensures
        r == spec_cancel(*transfer),
        r matches Ok(t) ==> t.status == transfer.status || valid_transition(
            transfer.status,
            t.status,
        ),
        is_terminal(transfer.status) ==> (r matches Ok(t) ==> t == *transfer),
{
    if matches!(transfer.status, TransferStatus::Cancelled) {
        return Ok(*transfer);
    }
    if matches!(transfer.status, TransferStatus::Pending) || matches!(
        transfer.status,
        TransferStatus::Initiated,
    ) {
        let mut updated = *transfer;
        updated.status = TransferStatus::Cancelled;
        return Ok(updated);
    }
    Err(TransferError::InvalidState)
}

/// What `fail` decides: failing an already Failed transfer is a no-op
/// success; failing from Pending, Initiated or Confirmed moves to Failed;
/// Completed and Cancelled refuse.
pub open spec fn spec_fail(transfer: CrossChainTransferData) -> Result<
    CrossChainTransferData,
    TransferError,
> {
    if transfer.status is Failed {
        Ok(transfer)
    } else if transfer.status is Pending || transfer.status is Initiated || transfer.status
        is Confirmed {
        Ok((CrossChainTransferData { status: TransferStatus::Failed, ..transfer }))
    } else {
        Err(TransferError::InvalidState)
    }
}

/// Marks a non-terminal transfer Failed; idempotent on an already Failed
/// transfer. Terminal statuses are fixed points: every status change taken
/// is an edge of the lifecycle graph.
pub fn fail(transfer: &CrossChainTransferData) -> (r: Result<
    CrossChainTransferData,
    TransferError,
>)
    ensures
        r == spec_fail(*transfer),
        r matches Ok(t) ==> t.status == transfer.status || valid_transition(
            transfer.status,
            t.status,
        ),
        is_terminal(transfer.status) ==> (r matches Ok(t) ==> t == *transfer),
{
    if matches!(transfer.status, TransferStatus::Failed) {
        return Ok(*transfer);
    }
    if matches!(transfer.status, TransferStatus::Pending) || matches!(
        transfer.status,
        TransferStatus::Initiated,
    ) || matches!(transfer.status, TransferStatus::Confirmed) {
        let mut updated = *transfer;
        updated.status = TransferStatus::Failed;
        return Ok(updated);
    }
    Err(TransferError::InvalidState)
}

} // verus!
