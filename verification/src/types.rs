//! The data model: issuer profiles, certificate templates, certificates and
//! the errors that the state-changing operations report.

use vstd::prelude::*;

verus! {

/// Profile stored for a registered issuer. Created or overwritten only by the
/// owner's registration call; never deleted.
#[derive(Debug, PartialEq)]
pub struct IssuerProfile {
    pub display_name: String,
}

/// A reusable rendering template. Immutable once appended to the template
/// store; identified by its insertion index. The content is opaque bytes plus
/// a `template_kind` discriminator interpreted only by viewers.
#[derive(Debug, PartialEq)]
pub struct CertificateTemplate {
    pub template_kind: String,
    pub template: Vec<u8>,
}

/// Lifecycle of a certificate: it starts `New` and can move to `Revoked`
/// exactly once per transition rule; re-revocation overwrites the reason.
#[derive(Debug, PartialEq)]
pub enum CertificateStatus {
    New,
    Revoked { reason: String },
}

/// A ledger record binding an issuer, a template, an opaque encrypted payload
/// and a status. All fields but `status` are immutable after creation.
///
/// `encrypted_certificate_data` is ciphertext of a document describing the
/// attested facts; the registry never decrypts or interprets it.
/// `certificate_encryption_nonce` is the nonce the payload was sealed with,
/// and `certificate_encryption_recovery` optionally carries key-recovery
/// material chosen by the issuer.
#[derive(Debug, PartialEq)]
pub struct Certificate {
    pub issuer_account_id: String,
    pub status: CertificateStatus,
    pub certificate_template_id: u64,
    pub encrypted_certificate_data: Vec<u8>,
    pub certificate_encryption_nonce: Vec<u8>,
    pub certificate_encryption_recovery: Option<Vec<u8>>,
}

/// Why a state-changing call was refused. Every refusal leaves the whole
/// state unchanged: batches are all-or-nothing.
#[derive(Debug, Clone, Copy, PartialEq, Eq, Structural)]
pub enum ContractError {
    /// The caller is not allowed to perform the operation.
    Unauthorized,
    /// A submitted draft names an issuer other than the caller.
    IssuerMismatch,
    /// A referenced certificate id does not exist.
    NotFound,
}

impl ContractError {
    /// A fixed description, sufficient to tell the error kinds apart.
    pub fn message(&self) -> (m: &'static str)
        ensures
            *self is Unauthorized ==> m@ == "the caller is not authorized to perform this operation"@,
            *self is IssuerMismatch ==> m@ == "the issuer account id on the certificate does not match the caller"@,
            *self is NotFound ==> m@ == "certificate must exist to be revoked"@,
    {
        match self {
            ContractError::Unauthorized => "the caller is not authorized to perform this operation",
            ContractError::IssuerMismatch => {
                "the issuer account id on the certificate does not match the caller"
            },
            ContractError::NotFound => "certificate must exist to be revoked",
        }
    }
}

} // verus!
