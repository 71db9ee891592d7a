use vstd::prelude::*;

use crate::eidas::{ComplianceError, EidasLevel, BASIC_TIER_LIMIT};
use crate::identity::Identity;

verus! {

/// A registered account: its owner, when it was created, and the
/// verification state the compliance gate has attached to it.
#[derive(Clone, Debug)]
pub struct Wallet {
    pub owner: Identity,
    pub created_at: i64,
    pub is_compliance_verified: bool,
    pub eidas_level: EidasLevel,
    pub public_key: Vec<u8>,
    pub metadata: Vec<u8>,
}

/// The caller-supplied part of a wallet registration.
#[derive(Clone, Debug)]
pub struct WalletData {
    pub public_key: Vec<u8>,
    pub metadata: Vec<u8>,
}

/// The caller-supplied description of a transaction to sign.
#[derive(Clone, Debug)]
pub struct TransactionSignatureData {
    pub transaction_hash: Vec<u8>,
    pub amount: u64,
    pub recipient: Identity,
    pub source_chain: u64,
    pub destination_chain: u64,
    pub nonce: u64,
}

#[derive(Clone, Debug)]
pub struct MultiSigWallet {
    pub owners: Vec<Identity>,
    pub threshold: u8,
    pub created_at: i64,
    pub eidas_required: bool,
}

/// Per-wallet transfer policy.
#[derive(Clone, Debug)]
pub struct WalletConfig {
    pub min_balance: u64,
    pub max_daily_transfer: u64,
    pub allowed_chains: Vec<u64>,
    pub require_eidas: bool,
    pub require_2fa: bool,
    pub enable_allowlist: bool,
    pub enable_blocklist: bool,
}

impl Default for WalletConfig {
    fn default() -> (r: Self)
        ensures
            r.min_balance == 0,
            r.max_daily_transfer == u64::MAX,
            r.allowed_chains@ == seq![1u64, 10u64, 42161u64, 8453u64],
            !r.require_eidas,
            !r.require_2fa,
            !r.enable_allowlist,
            !r.enable_blocklist,
    {
        let mut allowed_chains: Vec<u64> = Vec::new();
        allowed_chains.push(1);
        allowed_chains.push(10);
        allowed_chains.push(42161);
        allowed_chains.push(8453);
        proof {
            assert(allowed_chains@ =~= seq![1u64, 10u64, 42161u64, 8453u64]);
        }
        WalletConfig {
            min_balance: 0,
            max_daily_transfer: u64::MAX,
            allowed_chains,
            require_eidas: false,
            require_2fa: false,
            enable_allowlist: false,
            enable_blocklist: false,
        }
    }
}

#[derive(Clone, Copy, PartialEq, Eq, Structural, Debug)]
pub enum TransactionStatus {
    Pending,
    Confirmed,
    Failed,
    Cancelled,
}

/// One settled or in-flight transaction, for the account's history.
#[derive(Clone, Debug)]
pub struct TransactionRecord {
    pub id: String,
    pub timestamp: i64,
    pub tx_hash: Vec<u8>,
    pub from: Identity,
    pub to: Identity,
    pub amount: u64,
    pub fee: u64,
    pub status: TransactionStatus,
    pub chain_id: u64,
    pub cross_chain: bool,
}

/// What `validate_wallet_transfer` decides: a policy that demands a
/// verified tier refuses unverified wallets, and a Basic-tier wallet may
/// not move more than `BASIC_TIER_LIMIT`.
pub open spec fn spec_validate_wallet_transfer(
    wallet: Wallet,
    amount: u64,
    config: WalletConfig,
) -> Result<(), ComplianceError> {
    if config.require_eidas && wallet.eidas_level is Unverified {
        Err(ComplianceError::ComplianceRequired)
    } else if wallet.eidas_level is Basic && amount > BASIC_TIER_LIMIT {
        Err(ComplianceError::TierLimitExceeded)
    } else {
        Ok(())
    }
}

/// Admission of a transfer of `amount` out of `wallet` under the wallet's
/// policy `config`.
pub fn validate_wallet_transfer(wallet: &Wallet, amount: u64, config: &WalletConfig) -> (r: Result<
    (),
    ComplianceError,
>)
    ensures
        r == spec_validate_wallet_transfer(*wallet, amount, *config),
{
    if config.require_eidas && matches!(wallet.eidas_level, EidasLevel::Unverified) {
        return Err(ComplianceError::ComplianceRequired);
    }
    if matches!(wallet.eidas_level, EidasLevel::Basic) && amount > BASIC_TIER_LIMIT {
        return Err(ComplianceError::TierLimitExceeded);
    }
    Ok(())
}

/// The decimal digits of `n`, most significant first, as ASCII bytes.
pub open spec fn dec_digits(n: nat) -> Seq<u8>
    decreases n,
{
    if n < 10 {
        seq![(48 + n) as u8]
    } else {
        dec_digits(n / 10).push((48 + n % 10) as u8)
    }
}

/// `x` written out in decimal ASCII.
fn u64_to_dec(x: u64) -> (r: Vec<u8>)
    ensures
        r@ == dec_digits(x as nat),
{
    let mut out: Vec<u8> = Vec::new();
    let mut rem = x;
    while rem >= 10
        invariant
            dec_digits(rem as nat) + out@ == dec_digits(x as nat),
        decreases rem,
    {
        let digit: u8 = (rem % 10) as u8 + 48;
        let ghost prev = out@;
        out.insert(0, digit);
        proof {
            assert(out@ =~= seq![digit] + prev);
            assert(dec_digits(rem as nat) == dec_digits((rem / 10) as nat).push(
                (48 + rem as nat % 10) as u8,
            ));
            assert(dec_digits((rem / 10) as nat) + out@ =~= dec_digits(rem as nat) + prev);
        }
        rem = rem / 10;
    }
    let digit: u8 = rem as u8 + 48;
    let ghost prev = out@;
    out.insert(0, digit);
    proof {
        assert(out@ =~= seq![digit] + prev);
        assert(dec_digits(rem as nat) =~= seq![(48 + rem as nat) as u8]);
        assert(out@ =~= dec_digits(x as nat));
    }
    out
}

/// The base58 rendering of a 32-byte identity; a function of the bytes
/// alone.
pub uninterp spec fn base58_of(bytes: Seq<u8>) -> Seq<char>;

/// Relies on Pubkey's Display impl: the base58 rendering of the 32 bytes,
/// determined by the bytes alone.
#[verifier::external_body]
fn identity_base58(id: &Identity) -> (r: String)
    ensures
        r@ == base58_of(id@),
{
    let pk = solana_program::pubkey::Pubkey::new_from_array(id.0);
    pk.to_string()
}

/// The address that the hosting ledger's program-derived-address scheme
/// assigns to a seed under a program; absent when no bump seed yields a
/// valid address or the seed is over the scheme's length limit.
pub uninterp spec fn program_address_of(seed: Seq<u8>, program_id: Seq<u8>) -> Option<Seq<u8>>;

/// Relies on Pubkey::try_find_program_address: a deterministic hash-based
/// derivation from the seed and program id alone; it returns nothing when
/// no bump seed yields a valid address, in particular for seeds over the
/// scheme's length limit.
#[verifier::external_body]
fn find_derived_address(seed: &Vec<u8>, program_id: &[u8; 32]) -> (r: Option<Identity>)
    ensures
        match r {
            Some(id) => program_address_of(seed@, program_id@) == Some(id@),
            None => program_address_of(seed@, program_id@) is None,
        },
{
    let pk = solana_program::pubkey::Pubkey::new_from_array(*program_id);
    solana_program::pubkey::Pubkey::try_find_program_address(&[seed.as_slice()], &pk).map(
        |found: (solana_program::pubkey::Pubkey, u8)| Identity(found.0.to_bytes()),
    )
}

/// The identity of the hosting ledger's system program: all zero bytes.
pub open spec fn system_program_id() -> Seq<u8> {
    Seq::new(32, |i: int| 0u8)
}

/// The seed from which a wallet's address on another chain is derived:
/// the chain id and index in decimal, then the master key in base58.
pub open spec fn multi_chain_seed(master: Seq<u8>, chain_id: u64, index: u32) -> Seq<u8> {
    dec_digits(chain_id as nat) + dec_digits(index as nat) + vstd::utf8::encode_utf8(
        base58_of(master),
    )
}

/// The wallet's derived address on chain `chain_id` at derivation slot
/// `index`: the program-derived address of the seed under the system
/// program. Absent exactly when the scheme yields none for that seed.
pub fn derive_multi_chain_address(master_key: &Identity, chain_id: u64, index: u32) -> (r: Option<
    Identity,
>)
    ensures
        match r {
            Some(id) => program_address_of(
                multi_chain_seed(master_key@, chain_id, index),
                system_program_id(),
            ) == Some(id@),
            None => program_address_of(
                multi_chain_seed(master_key@, chain_id, index),
                system_program_id(),
            ) is None,
        },
{
    let b58 = identity_base58(master_key);
    let mut seed = u64_to_dec(chain_id);
    let mut part = u64_to_dec(index as u64);
    seed.append(&mut part);
    let mut sb = b58.as_str().as_bytes_vec();
    seed.append(&mut sb);
    let program_id: [u8; 32] = [0; 32];
    proof {
        assert(program_id@ =~= system_program_id());
        assert(seed@ =~= multi_chain_seed(master_key@, chain_id, index));
    }
    find_derived_address(&seed, &program_id)
}

/// Daily-limit rule: the day's running total plus this transfer must stay
/// within the wallet's daily ceiling; the sum is compared without
/// overflow.
pub fn verify_transaction_limits(daily_total: u64, amount: u64, config: &WalletConfig) -> (r:
    Result<(), ComplianceError>)
    ensures
        r is Ok <==> daily_total + amount <= config.max_daily_transfer,
        r is Err ==> r == Err::<(), ComplianceError>(ComplianceError::TierLimitExceeded),
{
    if daily_total > config.max_daily_transfer {
        return Err(ComplianceError::TierLimitExceeded);
    }
    if amount > config.max_daily_transfer - daily_total {
        return Err(ComplianceError::TierLimitExceeded);
    }
    Ok(())
}

} // verus!
