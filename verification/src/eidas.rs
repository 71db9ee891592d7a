use vstd::prelude::*;

use crate::identity::Identity;

verus! {

/// Identity-verification assurance tiers, ordered `None < Basic <
/// Substantial < High`.
#[derive(Clone, Copy, PartialEq, Eq, Structural, Debug)]
pub enum EidasLevel {
    Unverified,
    Basic,
    Substantial,
    High,
}

impl Default for EidasLevel {
    fn default() -> (r: Self)
        ensures
            r is Unverified,
    {
        EidasLevel::Unverified
    }
}

/// Failures of the compliance gate.
#[derive(Clone, Copy, PartialEq, Eq, Structural, Debug)]
pub enum ComplianceError {
    NotQscd,
    NotYetValid,
    Expired,
    JurisdictionRestricted,
    ComplianceRequired,
    TierLimitExceeded,
    MissingTimestamp,
}

#[derive(Clone, Copy, PartialEq, Eq, Structural, Debug)]
pub enum CertificateType {
    QES,
    QESe,
    WebAuth,
}

/// A credential asserting that a signer's identity was verified to a
/// regulated standard, valid within `[not_before, not_after]`.
#[derive(Clone, Debug)]
pub struct QualifiedCertificate {
    pub subject: String,
    pub issuer: String,
    pub serial_number: Vec<u8>,
    pub not_before: i64,
    pub not_after: i64,
    pub public_key_hash: Vec<u8>,
    pub certificate_type: CertificateType,
    pub country: String,
    pub qscd: bool,
}

#[derive(Clone, Debug)]
pub struct QualifiedSignature {
    pub signature: Vec<u8>,
    pub certificate: QualifiedCertificate,
    pub signed_data: Vec<u8>,
    pub timestamp: i64,
    pub signature_algorithm: String,
    pub signer_role: String,
}

#[derive(Clone, Debug)]
pub struct QualifiedTimestamp {
    pub ts_token: Vec<u8>,
    pub tsa_certificate: QualifiedCertificate,
    pub time: i64,
    pub hash_algorithm: String,
    pub hash_value: Vec<u8>,
}

/// The outcome of an external verifier's review of one identity.
#[derive(Clone, Debug)]
pub struct ComplianceData {
    pub verified: bool,
    pub eidas_level: EidasLevel,
    pub kyc_verified: bool,
    pub aml_screened: bool,
    pub restricted: bool,
    pub verification_date: i64,
    pub expiry_date: i64,
    pub jurisdiction: String,
    pub metadata: Vec<(String, String)>,
}

impl Default for ComplianceData {
    fn default() -> (r: Self)
        ensures
            !r.verified,
            r.eidas_level is Unverified,
            !r.kyc_verified,
            !r.aml_screened,
            !r.restricted,
            r.verification_date == 0,
            r.expiry_date == 0,
            r.jurisdiction@ == Seq::<char>::empty(),
            r.metadata@ == Seq::<(String, String)>::empty(),
    {
        proof {
            reveal_strlit("");
            assert(""@ =~= Seq::<char>::empty());
        }
        ComplianceData {
            verified: false,
            eidas_level: EidasLevel::Unverified,
            kyc_verified: false,
            aml_screened: false,
            restricted: false,
            verification_date: 0,
            expiry_date: 0,
            jurisdiction: String::from_str(""),
            metadata: Vec::new(),
        }
    }
}

#[derive(Clone, Debug)]
pub struct QualifiedSignatureData {
    pub data_to_sign: Vec<u8>,
    pub certificate: Vec<u8>,
    pub signature: Vec<u8>,
    pub timestamp: Option<i64>,
}

#[derive(Clone, Debug)]
pub struct TimestampData {
    pub data_to_timestamp: Vec<u8>,
    pub hash_algorithm: String,
    pub require_qts: bool,
}

/// One immutable record of a compliance-relevant action.
#[derive(Clone, Debug)]
pub struct AuditLog {
    pub id: String,
    pub timestamp: i64,
    pub action: String,
    pub user: Identity,
    pub details: String,
    pub compliance_status: String,
    pub signature_required: bool,
    pub signature: Option<Vec<u8>>,
}

/// Amount above which an unverified identity may not transfer.
pub const LARGE_TRANSFER_THRESHOLD: u64 = 1_000_000_000;

/// Amount above which a Basic-tier identity may not transfer.
pub const BASIC_TIER_LIMIT: u64 = 100_000_000;

/// What `validate_certificate` decides, given the certificate and the
/// current time: the device flag is checked first, then the start of the
/// validity window, then (only for certificates that carry an end, a
/// non-zero `not_after`) its end.
pub open spec fn spec_validate_certificate(cert: QualifiedCertificate, now: i64) -> Result<
    (),
    ComplianceError,
> {
    if !cert.qscd {
        Err(ComplianceError::NotQscd)
    } else if now < cert.not_before {
        Err(ComplianceError::NotYetValid)
    } else if cert.not_after != 0 && now > cert.not_after {
        Err(ComplianceError::Expired)
    } else {
        Ok(())
    }
}

/// Structural and temporal admission of a qualified certificate at time
/// `now`; cryptographic checks are an external collaborator's concern.
pub fn validate_certificate(cert: &QualifiedCertificate, now: i64) -> (r: Result<
    (),
    ComplianceError,
>)
    ensures
        r == spec_validate_certificate(*cert, now),
{
    if !cert.qscd {
        return Err(ComplianceError::NotQscd);
    }
    if now < cert.not_before {
        return Err(ComplianceError::NotYetValid);
    }
    if cert.not_after != 0 && now > cert.not_after {
        return Err(ComplianceError::Expired);
    }
    Ok(())
}

/// What `verify_qualified_signature` decides: the certificate must be
/// admissible at `now`, and the signature must carry a timestamp.
pub open spec fn spec_verify_qualified_signature(signature: QualifiedSignature, now: i64) -> Result<
    (),
    ComplianceError,
> {
    if spec_validate_certificate(signature.certificate, now) is Err {
        spec_validate_certificate(signature.certificate, now)
    } else if signature.timestamp == 0 {
        Err(ComplianceError::MissingTimestamp)
    } else {
        Ok(())
    }
}

/// Structural and temporal admission of a qualified signature over `data`
/// at time `now`; the cryptographic verification itself is an external
/// collaborator's concern, so `data` is carried but not inspected.
pub fn verify_qualified_signature(signature: &QualifiedSignature, data: &[u8], now: i64) -> (r:
    Result<(), ComplianceError>)
    ensures
        r == spec_verify_qualified_signature(*signature, now),
{
    match validate_certificate(&signature.certificate, now) {
        Err(e) => Err(e),
        Ok(()) => {
            if signature.timestamp == 0 {
                Err(ComplianceError::MissingTimestamp)
            } else {
                Ok(())
            }
        },
    }
}

/// Equality of two string slices, decided by their characters.
fn str_eq(a: &str, b: &str) -> (r: bool)
    ensures
        r == (a@ == b@),
{
    let ab = a.as_bytes();
    let bb = b.as_bytes();
    proof {
        vstd::utf8::encode_utf8_decode_utf8(a@);
        vstd::utf8::encode_utf8_decode_utf8(b@);
    }
    if ab.len() != bb.len() {
        return false;
    }
    let n = ab.len();
    let mut i: usize = 0;
    while i < n
        invariant
            n == ab@.len() == bb@.len(),
            0 <= i <= n,
            ab@ == vstd::utf8::encode_utf8(a@),
            bb@ == vstd::utf8::encode_utf8(b@),
            vstd::utf8::decode_utf8(ab@) == a@,
            vstd::utf8::decode_utf8(bb@) == b@,
            forall|j: int| 0 <= j < i ==> ab@[j] == bb@[j],
        decreases n - i,
    {
        if ab[i] != bb[i] {
            return false;
        }
        i += 1;
    }
    proof {
        assert(ab@ =~= bb@);
    }
    true
}

/// Jurisdictions from which transfers are never admitted.
pub open spec fn is_restricted_jurisdiction(j: Seq<char>) -> bool {
    j == "KP"@ || j == "IR"@ || j == "SY"@
}

/// Whether `jurisdiction` is on the restricted list (exact, case-sensitive
/// match).
pub fn check_restricted_jurisdiction(jurisdiction: &str) -> (r: bool)
    ensures
        r == is_restricted_jurisdiction(jurisdiction@),
{
    str_eq(jurisdiction, "KP") || str_eq(jurisdiction, "IR") || str_eq(jurisdiction, "SY")
}

/// What `check_transfer_compliance` decides: restricted jurisdictions are
/// refused outright; an unverified identity may not move more than
/// `LARGE_TRANSFER_THRESHOLD`; a Basic-tier identity may not move more
/// than `BASIC_TIER_LIMIT`.
pub open spec fn spec_check_transfer_compliance(
    amount: u64,
    tier: EidasLevel,
    jurisdiction: Seq<char>,
) -> Result<(), ComplianceError> {
    if is_restricted_jurisdiction(jurisdiction) {
        Err(ComplianceError::JurisdictionRestricted)
    } else if tier is Unverified && amount > LARGE_TRANSFER_THRESHOLD {
        Err(ComplianceError::ComplianceRequired)
    } else if tier is Basic && amount > BASIC_TIER_LIMIT {
        Err(ComplianceError::TierLimitExceeded)
    } else {
        Ok(())
    }
}

/// Admission of a transfer of `amount` by an identity of tier `tier` from
/// `jurisdiction`.
pub fn check_transfer_compliance(amount: u64, tier: EidasLevel, jurisdiction: &str) -> (r: Result<
    (),
    ComplianceError,
>)
    ensures
        r == spec_check_transfer_compliance(amount, tier, jurisdiction@),
{
    if check_restricted_jurisdiction(jurisdiction) {
        Err(ComplianceError::JurisdictionRestricted)
    } else if matches!(tier, EidasLevel::Unverified) && amount > LARGE_TRANSFER_THRESHOLD {
        Err(ComplianceError::ComplianceRequired)
    } else if matches!(tier, EidasLevel::Basic) && amount > BASIC_TIER_LIMIT {
        Err(ComplianceError::TierLimitExceeded)
    } else {
        Ok(())
    }
}

/// Relies on uuid::Uuid::new_v4 and uuid's hyphenated Display form: a
/// fresh random identifier rendered as 36 characters. Nothing is assumed
/// of which identifier comes back. Panics only if the operating system's
/// random source fails, an environmental failure no caller can exclude.
#[verifier::external_body]
fn fresh_audit_id() -> (r: String)
    ensures
        r@.len() == 36,
{
    uuid::Uuid::new_v4().to_string()
}

/// Relies on chrono::Utc::now().timestamp(): the current wall-clock time
/// in whole seconds. Nothing is assumed of the value. Panics only on a
/// system clock before 1970, an environmental failure no caller can
/// exclude.
#[verifier::external_body]
fn current_unix_time() -> (r: i64) {
    chrono::Utc::now().timestamp()
}

/// Assembles an audit record from its parts. New records always demand a
/// signature and carry none yet.
pub fn new_audit_log(
    id: String,
    timestamp: i64,
    action: String,
    user: Identity,
    details: String,
    compliance_status: String,
) -> (log: AuditLog)
    ensures
        log.id == id,
        log.timestamp == timestamp,
        log.action == action,
        log.user@ == user@,
        log.details == details,
        log.compliance_status == compliance_status,
        log.signature_required,
        log.signature is None,
{
    AuditLog {
        id,
        timestamp,
        action,
        user,
        details,
        compliance_status,
        signature_required: true,
        signature: None,
    }
}

/// An audit record for `action`, stamped with a fresh identifier and the
/// current time.
pub fn create_audit_log(
    action: String,
    user: Identity,
    details: String,
    compliance_status: String,
) -> (log: AuditLog)
    ensures
        log.id@.len() == 36,
        log.action == action,
        log.user@ == user@,
        log.details == details,
        log.compliance_status == compliance_status,
        log.signature_required,
        log.signature is None,
{
    let id = fresh_audit_id();
    let timestamp = current_unix_time();
    new_audit_log(id, timestamp, action, user, details, compliance_status)
}

} // verus!
