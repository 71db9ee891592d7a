use vstd::prelude::*;

use crate::arcium::ArciumTransactionData;
use crate::bridge::{spec_fee, calculate_cross_chain_fee, TransferError};
use crate::eidas::{ComplianceData, EidasLevel};
use crate::identity::{opt_identity_eq, Identity};
use crate::wallet::{TransactionSignatureData, Wallet, WalletData};

verus! {

/// Hub-wide configuration: the privileged identities and the transfer
/// window. An authority left unset authorizes no caller.
#[derive(Clone, Debug)]
pub struct CrossChainConfig {
    pub admin: Option<Identity>,
    pub bridge_authority: Option<Identity>,
    pub eidas_authority: Option<Identity>,
    pub arcium_program: Option<Identity>,
    pub supported_chains: Vec<u64>,
    pub min_cross_chain_amount: u64,
    pub max_cross_chain_amount: u64,
    pub fee_basis_points: u16,
    pub paused: bool,
}

impl Default for CrossChainConfig {
    fn default() -> (r: Self)
        ensures
            r.admin is None,
            r.bridge_authority is None,
            r.eidas_authority is None,
            r.arcium_program is None,
            r.supported_chains@ == seq![1u64, 10u64, 42161u64],
            r.min_cross_chain_amount == 1000,
            r.max_cross_chain_amount == 1_000_000_000,
            r.fee_basis_points == 25,
            !r.paused,
    {
        let mut supported_chains: Vec<u64> = Vec::new();
        supported_chains.push(1);
        supported_chains.push(10);
        supported_chains.push(42161);
        proof {
            assert(supported_chains@ =~= seq![1u64, 10u64, 42161u64]);
        }
        CrossChainConfig {
            admin: None,
            bridge_authority: None,
            eidas_authority: None,
            arcium_program: None,
            supported_chains,
            min_cross_chain_amount: 1000,
            max_cross_chain_amount: 1_000_000_000,
            fee_basis_points: 25,
            paused: false,
        }
    }
}

/// The hub's persistent state: its configuration and the aggregate
/// counters owned by the hosting container.
#[derive(Clone, Debug)]
pub struct CrossChainState {
    pub config: CrossChainConfig,
    pub total_volume: u64,
    pub total_transactions: u64,
    pub registered_wallets: u64,
    pub compliance_records: u64,
}

impl Default for CrossChainState {
    fn default() -> (r: Self)
        ensures
            r.config.admin is None,
            r.config.bridge_authority is None,
            r.config.eidas_authority is None,
            r.config.arcium_program is None,
            r.config.supported_chains@ == seq![1u64, 10u64, 42161u64],
            r.config.min_cross_chain_amount == 1000,
            r.config.max_cross_chain_amount == 1_000_000_000,
            r.config.fee_basis_points == 25,
            !r.config.paused,
            r.total_volume == 0,
            r.total_transactions == 0,
            r.registered_wallets == 0,
            r.compliance_records == 0,
    {
        CrossChainState {
            config: Default::default(),
            total_volume: 0,
            total_transactions: 0,
            registered_wallets: 0,
            compliance_records: 0,
        }
    }
}

/// One request to the hub, as carried on the wire by the hosting runtime.
#[derive(Clone, Debug)]
pub enum CrossChainInstruction {
    Initialize { config: CrossChainConfig },
    UpdateConfig { config: CrossChainConfig },
    RegisterWallet { wallet_data: WalletData },
    SignTransaction { signature_data: TransactionSignatureData },
    VerifyCompliance { compliance_data: ComplianceData },
    InitiateCrossChain { transfer_data: crate::bridge::CrossChainTransferData },
    CompleteCrossChain { transfer_data: crate::bridge::CrossChainTransferData },
    CreateQualifiedSignature { signature_data: crate::eidas::QualifiedSignatureData },
    VerifyQualifiedSignature { signature_data: crate::eidas::QualifiedSignatureData },
    CreateTimeStamp { timestamp_data: crate::eidas::TimestampData },
    ProcessArciumTransaction { arcium_data: ArciumTransactionData },
}

/// Fresh hub state for an authenticated admin: the supplied configuration
/// with the admin pinned to the caller, and all counters at zero.
pub fn initialize(config: CrossChainConfig, admin: &Identity) -> (r: CrossChainState)
    ensures
        r.config == (CrossChainConfig { admin: Some(*admin), ..config }),
        r.total_volume == 0,
        r.total_transactions == 0,
        r.registered_wallets == 0,
        r.compliance_records == 0,
{
    CrossChainState {
        config: CrossChainConfig { admin: Some(*admin), ..config },
        total_volume: 0,
        total_transactions: 0,
        registered_wallets: 0,
        compliance_records: 0,
    }
}

/// Whether `caller` is the identity in `slot`; an unset slot matches no
/// caller.
pub open spec fn spec_is_authority(slot: Option<Identity>, caller: Identity) -> bool {
    slot matches Some(a) && a@ == caller@
}

/// Replaces the configuration, for the configured admin only; on refusal
/// the state is untouched.
pub fn update_config(state: &mut CrossChainState, caller: &Identity, config: CrossChainConfig) -> (
    r: Result<(), TransferError>)
    ensures
        r is Ok <==> spec_is_authority(old(state).config.admin, *caller),
        r matches Ok(()) ==> *final(state) == (CrossChainState { config, ..*old(state) }),
        r is Err ==> *final(state) == *old(state) && r == Err::<(), TransferError>(
            TransferError::Unauthorized,
        ),
{
    if !opt_identity_eq(&state.config.admin, &Some(*caller)) {
        return Err(TransferError::Unauthorized);
    }
    state.config = config;
    Ok(())
}

/// Registers a wallet for `owner` at time `now`: the new wallet starts
/// unverified at the lowest tier, and the wallet counter advances by one.
pub fn register_wallet(
    state: &mut CrossChainState,
    owner: &Identity,
    wallet_data: WalletData,
    now: i64,
) -> (w: Wallet)
    requires
        old(state).registered_wallets < u64::MAX,
    ensures
        w.owner@ == owner@,
        w.created_at == now,
        !w.is_compliance_verified,
        w.eidas_level is Unverified,
        w.public_key == wallet_data.public_key,
        w.metadata == wallet_data.metadata,
        *final(state) == (CrossChainState {
            registered_wallets: (old(state).registered_wallets + 1) as u64,
            ..*old(state)
        }),
{
    let wallet = Wallet {
        owner: *owner,
        created_at: now,
        is_compliance_verified: false,
        eidas_level: EidasLevel::Unverified,
        public_key: wallet_data.public_key,
        metadata: wallet_data.metadata,
    };
    state.registered_wallets = state.registered_wallets + 1;
    wallet
}

/// What `sign_transaction` decides: the signer must own the wallet, and a
/// wallet flagged as compliance-verified must carry a real tier before it
/// may sign.
pub open spec fn spec_sign_transaction(wallet: Wallet, signer: Identity) -> Result<
    (),
    TransferError,
> {
    if wallet.owner@ != signer@ {
        Err(TransferError::Unauthorized)
    } else if wallet.is_compliance_verified && wallet.eidas_level is Unverified {
        Err(TransferError::ComplianceRequired)
    } else {
        Ok(())
    }
}

/// Admission of a signing request against `wallet` by `signer`; the hash
/// in `signature_data` is carried for the host to sign, not inspected.
pub fn sign_transaction(
    wallet: &Wallet,
    signer: &Identity,
    signature_data: &TransactionSignatureData,
) -> (r: Result<(), TransferError>)
    ensures
        r == spec_sign_transaction(*wallet, *signer),
{
    if !(wallet.owner == *signer) {
        return Err(TransferError::Unauthorized);
    }
    if wallet.is_compliance_verified && matches!(wallet.eidas_level, EidasLevel::Unverified) {
        return Err(TransferError::ComplianceRequired);
    }
    Ok(())
}

/// Attaches an external verifier's findings to a wallet, for the
/// configured compliance authority only; on refusal the wallet is
/// untouched.
pub fn verify_compliance(
    state: &CrossChainState,
    wallet: &mut Wallet,
    verifier: &Identity,
    compliance_data: &ComplianceData,
) -> (r: Result<(), TransferError>)
    ensures
        r is Ok <==> spec_is_authority(state.config.eidas_authority, *verifier),
        r matches Ok(()) ==> *final(wallet) == (Wallet {
            is_compliance_verified: compliance_data.verified,
            eidas_level: compliance_data.eidas_level,
            ..*old(wallet)
        }),
        r is Err ==> *final(wallet) == *old(wallet) && r == Err::<(), TransferError>(
            TransferError::Unauthorized,
        ),
{
    if !opt_identity_eq(&state.config.eidas_authority, &Some(*verifier)) {
        return Err(TransferError::Unauthorized);
    }
    wallet.is_compliance_verified = compliance_data.verified;
    wallet.eidas_level = compliance_data.eidas_level;
    Ok(())
}

/// What `initiate_cross_chain` decides, in order: the transfer must still
/// be Pending; the hub must not be paused; the sender must own the
/// wallet; the amount must lie in the configured window. On success the
/// transfer carries the protocol fee, in basis points of the amount with
/// no relayer fee at this level, and moves to Initiated.
pub open spec fn spec_initiate_cross_chain(
    state: CrossChainState,
    wallet: Wallet,
    sender: Identity,
    transfer: crate::bridge::CrossChainTransferData,
) -> Result<crate::bridge::CrossChainTransferData, TransferError> {
    if !(transfer.status is Pending) {
        Err(TransferError::InvalidState)
    } else if state.config.paused {
        Err(TransferError::BridgePaused)
    } else if wallet.owner@ != sender@ {
        Err(TransferError::Unauthorized)
    } else if transfer.amount < state.config.min_cross_chain_amount {
        Err(TransferError::AmountTooLow)
    } else if transfer.amount > state.config.max_cross_chain_amount {
        Err(TransferError::AmountTooHigh)
    } else {
        Ok(
            (crate::bridge::CrossChainTransferData {
                status: crate::bridge::TransferStatus::Initiated,
                fee: spec_fee(transfer.amount, state.config.fee_basis_points, 0) as u64,
                ..transfer
            }),
        )
    }
}

/// Admits a Pending hub-level transfer request, prices it, and moves it
/// to Initiated; on any refusal the transfer is left untouched. Every
/// status change taken is an edge of the lifecycle graph.
pub fn initiate_cross_chain(
    state: &CrossChainState,
    wallet: &Wallet,
    sender: &Identity,
    transfer_data: &crate::bridge::CrossChainTransferData,
) -> (r: Result<crate::bridge::CrossChainTransferData, TransferError>)
    requires
        transfer_data.amount <= state.config.max_cross_chain_amount ==> spec_fee(
            transfer_data.amount,
            state.config.fee_basis_points,
            0,
        ) <= u64::MAX,
    ensures
        r == spec_initiate_cross_chain(*state, *wallet, *sender, *transfer_data),
        r matches Ok(t) ==> crate::bridge::valid_transition(transfer_data.status, t.status)
            && t.status is Initiated,
{
    if !matches!(transfer_data.status, crate::bridge::TransferStatus::Pending) {
        return Err(TransferError::InvalidState);
    }
    if state.config.paused {
        return Err(TransferError::BridgePaused);
    }
    if !(wallet.owner == *sender) {
        return Err(TransferError::Unauthorized);
    }
    if transfer_data.amount < state.config.min_cross_chain_amount {
        return Err(TransferError::AmountTooLow);
    }
    if transfer_data.amount > state.config.max_cross_chain_amount {
        return Err(TransferError::AmountTooHigh);
    }
    let fee = calculate_cross_chain_fee(transfer_data.amount, state.config.fee_basis_points, 0);
    let mut updated = *transfer_data;
    updated.fee = fee;
    updated.status = crate::bridge::TransferStatus::Initiated;
    Ok(updated)
}

/// Completion of a hub-level transfer: the transfer must be Confirmed and
/// the caller must be the configured bridge authority; then it moves to
/// Completed, every other field unchanged. The decision is the state
/// machine's own.
pub fn complete_cross_chain(
    state: &CrossChainState,
    authority: &Identity,
    transfer_data: &crate::bridge::CrossChainTransferData,
) -> (r: Result<crate::bridge::CrossChainTransferData, TransferError>)
    ensures
        r == crate::bridge::spec_complete(*transfer_data, *authority, state.config),
        r matches Ok(t) ==> crate::bridge::valid_transition(transfer_data.status, t.status)
            && t.status is Completed,
{
    crate::bridge::complete(transfer_data, authority, &state.config)
}

/// Routing check for a confidential transaction: the submitted program
/// must be the configured confidential-compute program; an unset
/// configuration admits no program.
pub fn process_arcium_transaction(
    state: &CrossChainState,
    arcium_program: &Identity,
    arcium_data: &ArciumTransactionData,
) -> (r: Result<(), TransferError>)
    ensures
        r is Ok <==> spec_is_authority(state.config.arcium_program, *arcium_program),
        r is Err ==> r == Err::<(), TransferError>(TransferError::Unauthorized),
{
    if !opt_identity_eq(&state.config.arcium_program, &Some(*arcium_program)) {
        return Err(TransferError::Unauthorized);
    }
    Ok(())
}

} // verus!
