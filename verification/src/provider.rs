//! Qualification and binding of local verification providers, and the
//! verification stage over keys bound through a provider.
//!
//! A provider is a factory that binds canonical public-key bytes to an
//! opaque verifier. Qualification runs a fixed public suite independently
//! for the Ed25519 and P-256 slots of one provider instance. Keys are bound
//! only after their bytes pass the admissibility rules of their algorithm.

use vstd::prelude::*;
use vstd::slice::slice_to_vec;
use vstd::utf8::encode_utf8;
use crate::algorithm::{algorithm_of_wire, wire_value, AlgorithmId};
use crate::crypto::{
    ecdsa_p256_signature_is_well_formed, ed25519_signature_canonical, ed25519_signature_is_canonical,
    p256_signature_well_formed, provider_public_key_admissible, provider_public_key_is_admissible,
};
use crate::verify::{
    pre_verify_view, result_view, InvocationError, PreVerifyOutcome, PreVerifyResponse, PreVerifyView,
    StateView, VerifierOptions, VerifierState,
};


verus! {

/// Provider result after structural validation has completed.
#[derive(Clone, Copy, Debug, PartialEq, Eq, Structural)]
pub enum ProviderVerificationOutcome {
    /// The signature is valid for the supplied message and bound key.
    Verified,
    /// The signature is structurally valid but does not verify.
    SignatureMismatch,
    /// The provider could not complete the operation.
    ProviderFailure,
}

/// A provider's failure to bind a public key.
#[derive(Clone, Copy, Debug, PartialEq, Eq, Structural)]
pub struct ProviderBindFailure;

/// A verifier that a provider bound to one public key.
pub trait ProviderVerifier {
    /// Verify `signature` over `message` and classify the provider result.
    fn verify_provider(&self, message: &[u8], signature: &[u8]) -> ProviderVerificationOutcome;
}

/// A factory that binds canonical public-key bytes to an opaque verifier.
pub trait ProviderVerifierFactory {
    type Verifier: ProviderVerifier;

    /// Bind one supported algorithm and public key. The returned verifier is
    /// bound to exactly the supplied key.
    fn bind(&self, algorithm: AlgorithmId, canonical_public_key: &[u8]) -> Result<
        Self::Verifier,
        ProviderBindFailure,
    >;
}

/// Why a provider verification slot failed qualification.
#[derive(Clone, Copy, Debug, PartialEq, Eq, Structural)]
pub enum ProviderQualificationErrorKind {
    /// The provider could not bind a public qualification key.
    KeyBindingFailed,
    /// The provider rejected a signature the slot accepts.
    ValidSignatureRejected,
    /// The provider accepted a signature for the wrong message.
    InvalidSignatureAccepted,
    /// The provider reported an operational failure during qualification.
    ProviderFailure,
}

/// Qualification failure for one algorithm slot.
#[derive(Clone, Copy, Debug, PartialEq, Eq, Structural)]
pub struct ProviderQualificationError {
    kind: ProviderQualificationErrorKind,
    algorithm: AlgorithmId,
}

impl ProviderQualificationError {
    pub closed spec fn spec_kind(&self) -> ProviderQualificationErrorKind {
        self.kind
    }

    pub closed spec fn spec_algorithm(&self) -> AlgorithmId {
        self.algorithm
    }

    /// The failure category.
    pub fn kind(&self) -> (r: ProviderQualificationErrorKind)
        ensures
            r == self.spec_kind(),
    {
        self.kind
    }

    /// The failed algorithm slot.
    pub fn algorithm(&self) -> (r: AlgorithmId)
        ensures
            r == self.spec_algorithm(),
    {
        self.algorithm
    }

    /// Human-readable description, naming only the algorithm slot.
    pub fn message(&self) -> (r: String)
        ensures
            r@ == qualification_error_text(self.spec_algorithm()),
    {
        match self.algorithm {
            AlgorithmId::Ed25519 => String::from_str("verification provider did not qualify for Ed25519"),
            AlgorithmId::EcdsaP256Sha256 => String::from_str(
                "verification provider did not qualify for EcdsaP256Sha256",
            ),
        }
    }
}

pub open spec fn qualification_error_text(algorithm: AlgorithmId) -> Seq<char> {
    match algorithm {
        AlgorithmId::Ed25519 => "verification provider did not qualify for Ed25519"@,
        AlgorithmId::EcdsaP256Sha256 => "verification provider did not qualify for EcdsaP256Sha256"@,
    }
}

/// Qualification state of one provider algorithm slot.
#[derive(Clone, Copy, Debug, PartialEq, Eq, Structural)]
pub enum ProviderQualificationStatus {
    /// The provider instance passed the fixed qualification suite.
    Qualified,
    /// The slot is unavailable to qualified verification.
    Rejected(ProviderQualificationError),
}

impl ProviderQualificationStatus {
    /// Whether this slot passed qualification.
    pub fn is_qualified(&self) -> (r: bool)
        ensures
            r == (*self is Qualified),
    {
        match self {
            ProviderQualificationStatus::Qualified => true,
            ProviderQualificationStatus::Rejected(_) => false,
        }
    }
}

/// Why a provider verification key could not be bound.
#[derive(Clone, Copy, Debug, PartialEq, Eq, Structural)]
pub enum ProviderKeyBindingErrorKind {
    /// The public-key bytes are not admissible for the selected algorithm.
    InvalidPublicKey,
    /// The selected algorithm slot did not pass qualification.
    AlgorithmNotQualified,
    /// The provider failed to bind its verifier.
    ProviderBindingFailed,
}

/// Failure while binding a provider verification key.
#[derive(Clone, Copy, Debug, PartialEq, Eq, Structural)]
pub struct ProviderKeyBindingError {
    kind: ProviderKeyBindingErrorKind,
    algorithm: AlgorithmId,
}

impl ProviderKeyBindingError {
    pub closed spec fn spec_kind(&self) -> ProviderKeyBindingErrorKind {
        self.kind
    }

    pub closed spec fn spec_algorithm(&self) -> AlgorithmId {
        self.algorithm
    }

    /// The failure category.
    pub fn kind(&self) -> (r: ProviderKeyBindingErrorKind)
        ensures
            r == self.spec_kind(),
    {
        self.kind
    }

    /// The selected algorithm.
    pub fn algorithm(&self) -> (r: AlgorithmId)
        ensures
            r == self.spec_algorithm(),
    {
        self.algorithm
    }

    /// Human-readable description; it names neither the key nor the slot.
    pub fn message(&self) -> (r: String)
        ensures
            r@ == "provider verification key could not be bound"@,
    {
        String::from_str("provider verification key could not be bound")
    }
}

fn binding_error(algorithm: AlgorithmId, kind: ProviderKeyBindingErrorKind) -> (r:
    ProviderKeyBindingError)
    ensures
        r.spec_kind() == kind,
        r.spec_algorithm() == algorithm,
{
    ProviderKeyBindingError { kind, algorithm }
}

/// Check that public-key bytes are admissible for `algorithm`.
pub fn validate_public_key(algorithm: AlgorithmId, canonical_public_key: &[u8]) -> (r: Result<
    (),
    ProviderKeyBindingError,
>)
    ensures
        provider_public_key_admissible(algorithm, canonical_public_key@) <==> r is Ok,
        r matches Err(e) ==> e.spec_kind() == ProviderKeyBindingErrorKind::InvalidPublicKey
            && e.spec_algorithm() == algorithm,
{
    if provider_public_key_is_admissible(algorithm, canonical_public_key) {
        Ok(())
    } else {
        Err(binding_error(algorithm, ProviderKeyBindingErrorKind::InvalidPublicKey))
    }
}

/// Whether `status` reports the suite result `result` for the slot of
/// `algorithm`: qualified on success, else rejected with the failure kind.
pub open spec fn status_reports(
    status: ProviderQualificationStatus,
    algorithm: AlgorithmId,
    result: Result<(), ProviderQualificationErrorKind>,
) -> bool {
    match result {
        Ok(()) => status is Qualified,
        Err(kind) => status matches ProviderQualificationStatus::Rejected(e) && e.spec_kind() == kind
            && e.spec_algorithm() == algorithm,
    }
}

/// The qualification status of a slot from the result of its suite.
pub fn qualification_status(
    algorithm: AlgorithmId,
    result: Result<(), ProviderQualificationErrorKind>,
) -> (r: ProviderQualificationStatus)
    ensures
        match result {
            Ok(()) => r is Qualified,
            Err(kind) => r matches ProviderQualificationStatus::Rejected(e) && e.spec_kind() == kind
                && e.spec_algorithm() == algorithm,
        },
{
    match result {
        Ok(()) => ProviderQualificationStatus::Qualified,
        Err(kind) => ProviderQualificationStatus::Rejected(ProviderQualificationError { kind, algorithm }),
    }
}

/// The qualification failure, if any, of a provider outcome that was
/// expected to be `expected`.
pub open spec fn outcome_mismatch(
    outcome: ProviderVerificationOutcome,
    expected: ProviderVerificationOutcome,
) -> Option<ProviderQualificationErrorKind> {
    if outcome == expected {
        None
    } else {
        match outcome {
            ProviderVerificationOutcome::ProviderFailure => Some(
                ProviderQualificationErrorKind::ProviderFailure,
            ),
            ProviderVerificationOutcome::Verified => Some(
                ProviderQualificationErrorKind::InvalidSignatureAccepted,
            ),
            ProviderVerificationOutcome::SignatureMismatch => Some(
                ProviderQualificationErrorKind::ValidSignatureRejected,
            ),
        }
    }
}

/// Compare a provider outcome against the expected outcome of a
/// qualification vector.
pub fn expect_provider_result(
    outcome: ProviderVerificationOutcome,
    expected: ProviderVerificationOutcome,
) -> (r: Result<(), ProviderQualificationErrorKind>)
    ensures
        r == expectation_result(outcome, expected),
{
    if outcome == expected {
        return Ok(());
    }
    match outcome {
        ProviderVerificationOutcome::ProviderFailure => Err(ProviderQualificationErrorKind::ProviderFailure),
        ProviderVerificationOutcome::Verified => Err(ProviderQualificationErrorKind::InvalidSignatureAccepted),
        ProviderVerificationOutcome::SignatureMismatch => Err(
            ProviderQualificationErrorKind::ValidSignatureRejected,
        ),
    }
}

/// The RFC 8032 section 7.1 TEST 1 public key.
pub open spec fn rfc8032_test_1_public_key_bytes() -> Seq<u8> {
    seq![
        0xd7u8, 0x5a, 0x98, 0x01, 0x82, 0xb1, 0x0a, 0xb7,
        0xd5, 0x4b, 0xfe, 0xd3, 0xc9, 0x64, 0x07, 0x3a,
        0x0e, 0xe1, 0x72, 0xf3, 0xda, 0xa6, 0x23, 0x25,
        0xaf, 0x02, 0x1a, 0x68, 0xf7, 0x07, 0x51, 0x1a,
    ]
}

/// The RFC 8032 section 7.1 TEST 1 public key.
pub fn rfc8032_test_1_public_key() -> (r: Vec<u8>)
    ensures
        r@ == rfc8032_test_1_public_key_bytes(),
{
    let v: Vec<u8> = vec![
        0xd7, 0x5a, 0x98, 0x01, 0x82, 0xb1, 0x0a, 0xb7, 0xd5, 0x4b, 0xfe, 0xd3, 0xc9, 0x64, 0x07, 0x3a,
        0x0e, 0xe1, 0x72, 0xf3, 0xda, 0xa6, 0x23, 0x25, 0xaf, 0x02, 0x1a, 0x68, 0xf7, 0x07, 0x51, 0x1a,
    ];
    v
}

/// The RFC 8032 section 7.1 TEST 1 signature of the empty message.
pub open spec fn rfc8032_test_1_signature_bytes() -> Seq<u8> {
    seq![
        0xe5u8, 0x56, 0x43, 0x00, 0xc3, 0x60, 0xac, 0x72,
        0x90, 0x86, 0xe2, 0xcc, 0x80, 0x6e, 0x82, 0x8a,
        0x84, 0x87, 0x7f, 0x1e, 0xb8, 0xe5, 0xd9, 0x74,
        0xd8, 0x73, 0xe0, 0x65, 0x22, 0x49, 0x01, 0x55,
        0x5f, 0xb8, 0x82, 0x15, 0x90, 0xa3, 0x3b, 0xac,
        0xc6, 0x1e, 0x39, 0x70, 0x1c, 0xf9, 0xb4, 0x6b,
        0xd2, 0x5b, 0xf5, 0xf0, 0x59, 0x5b, 0xbe, 0x24,
        0x65, 0x51, 0x41, 0x43, 0x8e, 0x7a, 0x10, 0x0b,
    ]
}

/// The RFC 8032 section 7.1 TEST 1 signature of the empty message.
pub fn rfc8032_test_1_signature() -> (r: Vec<u8>)
    ensures
        r@ == rfc8032_test_1_signature_bytes(),
{
    let v: Vec<u8> = vec![
        0xe5, 0x56, 0x43, 0x00, 0xc3, 0x60, 0xac, 0x72, 0x90, 0x86, 0xe2, 0xcc, 0x80, 0x6e, 0x82, 0x8a,
        0x84, 0x87, 0x7f, 0x1e, 0xb8, 0xe5, 0xd9, 0x74, 0xd8, 0x73, 0xe0, 0x65, 0x22, 0x49, 0x01, 0x55,
        0x5f, 0xb8, 0x82, 0x15, 0x90, 0xa3, 0x3b, 0xac, 0xc6, 0x1e, 0x39, 0x70, 0x1c, 0xf9, 0xb4, 0x6b,
        0xd2, 0x5b, 0xf5, 0xf0, 0x59, 0x5b, 0xbe, 0x24, 0x65, 0x51, 0x41, 0x43, 0x8e, 0x7a, 0x10, 0x0b,
    ];
    v
}

/// Message of the Ed25519 vector whose `R` has mixed order.
pub open spec fn ed25519_mixed_r_message_text() -> Seq<char> {
    "YamlSigil Ed25519 mixed R qualification"@
}

/// Message of the Ed25519 vector whose `R` has mixed order.
pub fn ed25519_mixed_r_message() -> (r: &'static str)
    ensures
        r@ == ed25519_mixed_r_message_text(),
{
    "YamlSigil Ed25519 mixed R qualification"
}

/// Public key of the Ed25519 vector whose `R` has mixed order.
pub open spec fn ed25519_mixed_r_public_key_bytes() -> Seq<u8> {
    seq![
        0xb8u8, 0x62, 0x40, 0x9f, 0xb5, 0xc4, 0xc4, 0x12,
        0x3d, 0xf2, 0xab, 0xf7, 0x46, 0x2b, 0x88, 0xf0,
        0x41, 0xad, 0x36, 0xdd, 0x68, 0x64, 0xce, 0x87,
        0x2f, 0xd5, 0x47, 0x2b, 0xe3, 0x63, 0xc5, 0xb1,
    ]
}

/// Public key of the Ed25519 vector whose `R` has mixed order.
pub fn ed25519_mixed_r_public_key() -> (r: Vec<u8>)
    ensures
        r@ == ed25519_mixed_r_public_key_bytes(),
{
    let v: Vec<u8> = vec![
        0xb8, 0x62, 0x40, 0x9f, 0xb5, 0xc4, 0xc4, 0x12, 0x3d, 0xf2, 0xab, 0xf7, 0x46, 0x2b, 0x88, 0xf0,
        0x41, 0xad, 0x36, 0xdd, 0x68, 0x64, 0xce, 0x87, 0x2f, 0xd5, 0x47, 0x2b, 0xe3, 0x63, 0xc5, 0xb1,
    ];
    v
}

/// Signature of the Ed25519 vector whose `R` has mixed order.
pub open spec fn ed25519_mixed_r_signature_bytes() -> Seq<u8> {
    seq![
        0xc8u8, 0x91, 0xdd, 0x2f, 0xc0, 0xca, 0x87, 0xa7,
        0x46, 0x01, 0x93, 0x89, 0x5e, 0x04, 0x6a, 0x91,
        0x4c, 0x11, 0xb6, 0x6f, 0xdf, 0xfa, 0x8e, 0x6b,
        0x7c, 0x3b, 0xa8, 0x31, 0x38, 0x49, 0x9c, 0x70,
        0x60, 0xe4, 0x42, 0xf8, 0xcd, 0xcf, 0xda, 0x4b,
        0xcf, 0x5f, 0xf4, 0x18, 0x62, 0x71, 0xe1, 0x69,
        0x96, 0x2e, 0x40, 0xab, 0x92, 0x36, 0x45, 0x62,
        0x76, 0x0b, 0x99, 0xec, 0x91, 0x99, 0x67, 0x0e,
    ]
}

/// Signature of the Ed25519 vector whose `R` has mixed order.
pub fn ed25519_mixed_r_signature() -> (r: Vec<u8>)
    ensures
        r@ == ed25519_mixed_r_signature_bytes(),
{
    let v: Vec<u8> = vec![
        0xc8, 0x91, 0xdd, 0x2f, 0xc0, 0xca, 0x87, 0xa7, 0x46, 0x01, 0x93, 0x89, 0x5e, 0x04, 0x6a, 0x91,
        0x4c, 0x11, 0xb6, 0x6f, 0xdf, 0xfa, 0x8e, 0x6b, 0x7c, 0x3b, 0xa8, 0x31, 0x38, 0x49, 0x9c, 0x70,
        0x60, 0xe4, 0x42, 0xf8, 0xcd, 0xcf, 0xda, 0x4b, 0xcf, 0x5f, 0xf4, 0x18, 0x62, 0x71, 0xe1, 0x69,
        0x96, 0x2e, 0x40, 0xab, 0x92, 0x36, 0x45, 0x62, 0x76, 0x0b, 0x99, 0xec, 0x91, 0x99, 0x67, 0x0e,
    ];
    v
}

/// Message of the Ed25519 vector whose public key has mixed order.
pub open spec fn ed25519_mixed_a_message_text() -> Seq<char> {
    "YamlSigil Ed25519 mixed A qualification"@
}

/// Message of the Ed25519 vector whose public key has mixed order.
pub fn ed25519_mixed_a_message() -> (r: &'static str)
    ensures
        r@ == ed25519_mixed_a_message_text(),
{
    "YamlSigil Ed25519 mixed A qualification"
}

/// Public key of the Ed25519 vector whose public key has mixed order.
pub open spec fn ed25519_mixed_a_public_key_bytes() -> Seq<u8> {
    seq![
        0xe9u8, 0xb2, 0xfe, 0x98, 0x15, 0x87, 0xef, 0xae,
        0x64, 0x78, 0xf4, 0x8b, 0xa1, 0xfa, 0x60, 0xce,
        0xc6, 0x12, 0x6d, 0x0e, 0x26, 0xdd, 0xe7, 0x2a,
        0x0a, 0x24, 0xf6, 0x40, 0xdc, 0xd7, 0x83, 0xe5,
    ]
}

/// Public key of the Ed25519 vector whose public key has mixed order.
pub fn ed25519_mixed_a_public_key() -> (r: Vec<u8>)
    ensures
        r@ == ed25519_mixed_a_public_key_bytes(),
{
    let v: Vec<u8> = vec![
        0xe9, 0xb2, 0xfe, 0x98, 0x15, 0x87, 0xef, 0xae, 0x64, 0x78, 0xf4, 0x8b, 0xa1, 0xfa, 0x60, 0xce,
        0xc6, 0x12, 0x6d, 0x0e, 0x26, 0xdd, 0xe7, 0x2a, 0x0a, 0x24, 0xf6, 0x40, 0xdc, 0xd7, 0x83, 0xe5,
    ];
    v
}

/// Signature of the Ed25519 vector whose public key has mixed order.
pub open spec fn ed25519_mixed_a_signature_bytes() -> Seq<u8> {
    seq![
        0x13u8, 0x37, 0x03, 0x6a, 0xc3, 0x2d, 0x8f, 0x30,
        0xd4, 0x58, 0x9c, 0x3c, 0x1c, 0x59, 0x58, 0x12,
        0xce, 0x0f, 0xff, 0x40, 0xe3, 0x7c, 0x6f, 0x5a,
        0x97, 0xab, 0x21, 0x3f, 0x31, 0x82, 0x90, 0xad,
        0x4f, 0x77, 0x53, 0x17, 0x4a, 0x7f, 0x11, 0xe9,
        0x72, 0x16, 0x75, 0x31, 0xf9, 0x64, 0xed, 0x73,
        0x10, 0x1f, 0x0a, 0xdf, 0xec, 0xf8, 0x2e, 0xb5,
        0x5f, 0xb5, 0x19, 0xe4, 0xd9, 0xa7, 0x7e, 0x07,
    ]
}

/// Signature of the Ed25519 vector whose public key has mixed order.
pub fn ed25519_mixed_a_signature() -> (r: Vec<u8>)
    ensures
        r@ == ed25519_mixed_a_signature_bytes(),
{
    let v: Vec<u8> = vec![
        0x13, 0x37, 0x03, 0x6a, 0xc3, 0x2d, 0x8f, 0x30, 0xd4, 0x58, 0x9c, 0x3c, 0x1c, 0x59, 0x58, 0x12,
        0xce, 0x0f, 0xff, 0x40, 0xe3, 0x7c, 0x6f, 0x5a, 0x97, 0xab, 0x21, 0x3f, 0x31, 0x82, 0x90, 0xad,
        0x4f, 0x77, 0x53, 0x17, 0x4a, 0x7f, 0x11, 0xe9, 0x72, 0x16, 0x75, 0x31, 0xf9, 0x64, 0xed, 0x73,
        0x10, 0x1f, 0x0a, 0xdf, 0xec, 0xf8, 0x2e, 0xb5, 0x5f, 0xb5, 0x19, 0xe4, 0xd9, 0xa7, 0x7e, 0x07,
    ];
    v
}

/// Message of the P-256 qualification vector.
pub open spec fn p256_qualification_message_text() -> Seq<char> {
    "YamlSigil P-256 SHA-256 qualification"@
}

/// Message of the P-256 qualification vector.
pub fn p256_qualification_message() -> (r: &'static str)
    ensures
        r@ == p256_qualification_message_text(),
{
    "YamlSigil P-256 SHA-256 qualification"
}

/// SEC 1 uncompressed public key of the P-256 qualification vector.
pub open spec fn p256_qualification_public_key_bytes() -> Seq<u8> {
    seq![
        0x04u8, 0x1e, 0x18, 0x53, 0x2f, 0xd4, 0x75, 0x4c,
        0x02, 0xf3, 0x04, 0x1d, 0x9c, 0x75, 0xce, 0xb3,
        0x3b, 0x83, 0xff, 0xd8, 0x1a, 0xc7, 0xce, 0x4f,
        0xe8, 0x82, 0xcc, 0xb1, 0xc9, 0x8b, 0xc5, 0x89,
        0x6e, 0xa4, 0x6c, 0x31, 0x1c, 0x4e, 0x2f, 0xf4,
        0x0d, 0xd9, 0x6a, 0x36, 0x53, 0xe6, 0xe4, 0x54,
        0x45, 0xd3, 0x2d, 0xfe, 0x48, 0x6e, 0xce, 0xd7,
        0x5c, 0x7a, 0x90, 0xc6, 0xa1, 0x88, 0x81, 0xc0,
        0xa3,
    ]
}

/// SEC 1 uncompressed public key of the P-256 qualification vector.
pub fn p256_qualification_public_key() -> (r: Vec<u8>)
    ensures
        r@ == p256_qualification_public_key_bytes(),
{
    let v: Vec<u8> = vec![
        0x04, 0x1e, 0x18, 0x53, 0x2f, 0xd4, 0x75, 0x4c, 0x02, 0xf3, 0x04, 0x1d, 0x9c, 0x75, 0xce, 0xb3,
        0x3b, 0x83, 0xff, 0xd8, 0x1a, 0xc7, 0xce, 0x4f, 0xe8, 0x82, 0xcc, 0xb1, 0xc9, 0x8b, 0xc5, 0x89,
        0x6e, 0xa4, 0x6c, 0x31, 0x1c, 0x4e, 0x2f, 0xf4, 0x0d, 0xd9, 0x6a, 0x36, 0x53, 0xe6, 0xe4, 0x54,
        0x45, 0xd3, 0x2d, 0xfe, 0x48, 0x6e, 0xce, 0xd7, 0x5c, 0x7a, 0x90, 0xc6, 0xa1, 0x88, 0x81, 0xc0,
        0xa3,
    ];
    v
}

/// Low-S signature of the P-256 qualification vector.
pub open spec fn p256_qualification_low_signature_bytes() -> Seq<u8> {
    seq![
        0xb6u8, 0xc6, 0x64, 0x31, 0x44, 0xa6, 0x2c, 0x53,
        0x5d, 0x06, 0xa8, 0x0d, 0xc8, 0x54, 0x36, 0xf8,
        0xd6, 0x07, 0x99, 0x77, 0x8e, 0xc2, 0xef, 0x85,
        0x27, 0xae, 0x22, 0xbe, 0xe8, 0x4c, 0xc9, 0x91,
        0x32, 0xaa, 0xd3, 0x55, 0x2c, 0x8a, 0x59, 0x6a,
        0x73, 0x1d, 0x9d, 0x02, 0xb7, 0xa9, 0xcd, 0x14,
        0xb5, 0x6b, 0x3f, 0x0c, 0x7b, 0xd5, 0xe8, 0xc9,
        0xec, 0x08, 0xcc, 0x60, 0x3c, 0x75, 0xa8, 0xf1,
    ]
}

/// Low-S signature of the P-256 qualification vector.
pub fn p256_qualification_low_signature() -> (r: Vec<u8>)
    ensures
        r@ == p256_qualification_low_signature_bytes(),
{
    let v: Vec<u8> = vec![
        0xb6, 0xc6, 0x64, 0x31, 0x44, 0xa6, 0x2c, 0x53, 0x5d, 0x06, 0xa8, 0x0d, 0xc8, 0x54, 0x36, 0xf8,
        0xd6, 0x07, 0x99, 0x77, 0x8e, 0xc2, 0xef, 0x85, 0x27, 0xae, 0x22, 0xbe, 0xe8, 0x4c, 0xc9, 0x91,
        0x32, 0xaa, 0xd3, 0x55, 0x2c, 0x8a, 0x59, 0x6a, 0x73, 0x1d, 0x9d, 0x02, 0xb7, 0xa9, 0xcd, 0x14,
        0xb5, 0x6b, 0x3f, 0x0c, 0x7b, 0xd5, 0xe8, 0xc9, 0xec, 0x08, 0xcc, 0x60, 0x3c, 0x75, 0xa8, 0xf1,
    ];
    v
}

/// High-S signature of the P-256 qualification vector; it shares `r` with
/// the low-S signature.
pub open spec fn p256_qualification_high_signature_bytes() -> Seq<u8> {
    seq![
        0xb6u8, 0xc6, 0x64, 0x31, 0x44, 0xa6, 0x2c, 0x53,
        0x5d, 0x06, 0xa8, 0x0d, 0xc8, 0x54, 0x36, 0xf8,
        0xd6, 0x07, 0x99, 0x77, 0x8e, 0xc2, 0xef, 0x85,
        0x27, 0xae, 0x22, 0xbe, 0xe8, 0x4c, 0xc9, 0x91,
        0xcd, 0x55, 0x2c, 0xa9, 0xd3, 0x75, 0xa6, 0x96,
        0x8c, 0xe2, 0x62, 0xfd, 0x48, 0x56, 0x32, 0xeb,
        0x07, 0x7b, 0xbb, 0xa1, 0x2b, 0x41, 0xb5, 0xbb,
        0x07, 0xb0, 0xfe, 0x62, 0xbf, 0xed, 0x7c, 0x60,
    ]
}

/// the low-S signature.
pub fn p256_qualification_high_signature() -> (r: Vec<u8>)
    ensures
        r@ == p256_qualification_high_signature_bytes(),
{
    let v: Vec<u8> = vec![
        0xb6, 0xc6, 0x64, 0x31, 0x44, 0xa6, 0x2c, 0x53, 0x5d, 0x06, 0xa8, 0x0d, 0xc8, 0x54, 0x36, 0xf8,
        0xd6, 0x07, 0x99, 0x77, 0x8e, 0xc2, 0xef, 0x85, 0x27, 0xae, 0x22, 0xbe, 0xe8, 0x4c, 0xc9, 0x91,
        0xcd, 0x55, 0x2c, 0xa9, 0xd3, 0x75, 0xa6, 0x96, 0x8c, 0xe2, 0x62, 0xfd, 0x48, 0x56, 0x32, 0xeb,
        0x07, 0x7b, 0xbb, 0xa1, 0x2b, 0x41, 0xb5, 0xbb, 0x07, 0xb0, 0xfe, 0x62, 0xbf, 0xed, 0x7c, 0x60,
    ];
    v
}

/// Whether `provider` may answer a bind of the key bytes `key` for
/// `algorithm` with `b`: some call of its `bind` with those bytes returns `b`.
pub open spec fn bind_answer<P: ProviderVerifierFactory>(
    provider: &P,
    algorithm: AlgorithmId,
    key: Seq<u8>,
    b: Result<P::Verifier, ProviderBindFailure>,
) -> bool {
    exists|k: &[u8]| k@ == key && #[trigger] call_ensures(P::bind, (provider, algorithm, k), b)
}

/// Whether `verifier` may answer the verification of `signature` over
/// `message` with `o`.
pub open spec fn verify_answer<V: ProviderVerifier>(
    verifier: &V,
    message: Seq<u8>,
    signature: Seq<u8>,
    o: ProviderVerificationOutcome,
) -> bool {
    exists|m: &[u8], s: &[u8]|
        m@ == message && s@ == signature && #[trigger] call_ensures(
            V::verify_provider,
            (verifier, m, s),
            o,
        )
}

/// The qualification result of a provider outcome expected to be `expected`.
pub open spec fn expectation_result(
    o: ProviderVerificationOutcome,
    expected: ProviderVerificationOutcome,
) -> Result<(), ProviderQualificationErrorKind> {
    match outcome_mismatch(o, expected) {
        None => Ok(()),
        Some(k) => Err(k),
    }
}

/// Whether `r` is the result of asking `verifier` about one vector whose
/// expected outcome is `expected`.
pub open spec fn check_result<V: ProviderVerifier>(
    verifier: &V,
    message: Seq<u8>,
    signature: Seq<u8>,
    expected: ProviderVerificationOutcome,
    r: Result<(), ProviderQualificationErrorKind>,
) -> bool {
    exists|o: ProviderVerificationOutcome|
        #[trigger] verify_answer(verifier, message, signature, o) && r == expectation_result(
            o,
            expected,
        )
}

/// Whether `r` is the result of binding `key` and checking that the vector
/// verifies: a bind failure, or the verdict on the bound verifier's answer.
pub open spec fn vector_result<P: ProviderVerifierFactory>(
    provider: &P,
    algorithm: AlgorithmId,
    key: Seq<u8>,
    message: Seq<u8>,
    signature: Seq<u8>,
    r: Result<(), ProviderQualificationErrorKind>,
) -> bool {
    ||| bind_answer(provider, algorithm, key, Err(ProviderBindFailure)) && r == Err::<
        (),
        ProviderQualificationErrorKind,
    >(ProviderQualificationErrorKind::KeyBindingFailed)
    ||| exists|v: P::Verifier|
        #[trigger] bind_answer(provider, algorithm, key, Ok(v)) && check_result(
            &v,
            message,
            signature,
            ProviderVerificationOutcome::Verified,
            r,
        )
}

/// Bind `key` for a qualification vector and check one verification.
fn qualify_vector<P: ProviderVerifierFactory>(
    provider: &P,
    algorithm: AlgorithmId,
    key: &[u8],
    message: &[u8],
    signature: &[u8],
) -> (r: Result<(), ProviderQualificationErrorKind>)
    ensures
        vector_result(provider, algorithm, key@, message@, signature@, r),
{
    let bound = provider.bind(algorithm, key);
    assert(bind_answer(provider, algorithm, key@, bound));
    let verifier = match bound {
        Ok(v) => v,
        Err(e) => {
            assert(e == ProviderBindFailure);
            return Err(ProviderQualificationErrorKind::KeyBindingFailed);
        },
    };
    let outcome = verifier.verify_provider(message, signature);
    assert(verify_answer(&verifier, message@, signature@, outcome));
    let r = expect_provider_result(outcome, ProviderVerificationOutcome::Verified);
    assert(check_result(&verifier, message@, signature@, ProviderVerificationOutcome::Verified, r));
    r
}

/// The rest of the Ed25519 suite once the RFC 8032 key is bound to `v`.
pub open spec fn ed25519_suite_rest<P: ProviderVerifierFactory>(
    provider: &P,
    v: &P::Verifier,
    r: Result<(), ProviderQualificationErrorKind>,
) -> bool {
    exists|r1: Result<(), ProviderQualificationErrorKind>|
        #[trigger] check_result(
            v,
            Seq::<u8>::empty(),
            rfc8032_test_1_signature_bytes(),
            ProviderVerificationOutcome::Verified,
            r1,
        ) && (r1 is Err ==> r == r1) && (r1 is Ok ==> exists|r2: Result<(), ProviderQualificationErrorKind>|
            #[trigger] check_result(
                v,
                encode_utf8("not empty"@),
                rfc8032_test_1_signature_bytes(),
                ProviderVerificationOutcome::SignatureMismatch,
                r2,
            ) && (r2 is Err ==> r == r2) && (r2 is Ok ==> exists|r3: Result<(), ProviderQualificationErrorKind>|
                #[trigger] vector_result(
                    provider,
                    AlgorithmId::Ed25519,
                    ed25519_mixed_r_public_key_bytes(),
                    encode_utf8(ed25519_mixed_r_message_text()),
                    ed25519_mixed_r_signature_bytes(),
                    r3,
                ) && (r3 is Err ==> r == r3) && (r3 is Ok ==> vector_result(
                    provider,
                    AlgorithmId::Ed25519,
                    ed25519_mixed_a_public_key_bytes(),
                    encode_utf8(ed25519_mixed_a_message_text()),
                    ed25519_mixed_a_signature_bytes(),
                    r,
                ))))
}

/// Whether `r` is the outcome of the Ed25519 suite on the provider's
/// answers, stopping at the first failure.
pub open spec fn ed25519_suite_result<P: ProviderVerifierFactory>(
    provider: &P,
    r: Result<(), ProviderQualificationErrorKind>,
) -> bool {
    ||| bind_answer(provider, AlgorithmId::Ed25519, rfc8032_test_1_public_key_bytes(), Err(ProviderBindFailure))
        && r == Err::<(), ProviderQualificationErrorKind>(ProviderQualificationErrorKind::KeyBindingFailed)
    ||| exists|v: P::Verifier|
        #[trigger] bind_answer(provider, AlgorithmId::Ed25519, rfc8032_test_1_public_key_bytes(), Ok(v))
            && ed25519_suite_rest(provider, &v, r)
}

/// Run the fixed Ed25519 suite: the RFC 8032 vector must verify and must not
/// verify for another message, and the two mixed-order vectors must verify.
pub fn qualify_ed25519_provider<P: ProviderVerifierFactory>(provider: &P) -> (r: Result<
    (),
    ProviderQualificationErrorKind,
>)
    ensures
        ed25519_suite_result(provider, r),
{
    let public_key = rfc8032_test_1_public_key();
    let bound = provider.bind(AlgorithmId::Ed25519, public_key.as_slice());
    assert(bind_answer(provider, AlgorithmId::Ed25519, rfc8032_test_1_public_key_bytes(), bound));
    let standard = match bound {
        Ok(v) => v,
        Err(e) => {
            assert(e == ProviderBindFailure);
            return Err(ProviderQualificationErrorKind::KeyBindingFailed);
        },
    };
    let test_1_signature = rfc8032_test_1_signature();
    let empty: [u8; 0] = [];
    let o1 = standard.verify_provider(&empty, test_1_signature.as_slice());
    assert(empty@ =~= Seq::<u8>::empty());
    assert(verify_answer(&standard, Seq::<u8>::empty(), rfc8032_test_1_signature_bytes(), o1));
    let r1 = expect_provider_result(o1, ProviderVerificationOutcome::Verified);
    assert(check_result(
        &standard,
        Seq::<u8>::empty(),
        rfc8032_test_1_signature_bytes(),
        ProviderVerificationOutcome::Verified,
        r1,
    ));
    match r1 {
        Err(k) => return Err(k),
        Ok(()) => {},
    }
    let other = "not empty".as_bytes();
    let o2 = standard.verify_provider(other, test_1_signature.as_slice());
    assert(verify_answer(&standard, encode_utf8("not empty"@), rfc8032_test_1_signature_bytes(), o2));
    let r2 = expect_provider_result(o2, ProviderVerificationOutcome::SignatureMismatch);
    assert(check_result(
        &standard,
        encode_utf8("not empty"@),
        rfc8032_test_1_signature_bytes(),
        ProviderVerificationOutcome::SignatureMismatch,
        r2,
    ));
    match r2 {
        Err(k) => return Err(k),
        Ok(()) => {},
    }
    let r3 = qualify_vector(
        provider,
        AlgorithmId::Ed25519,
        ed25519_mixed_r_public_key().as_slice(),
        ed25519_mixed_r_message().as_bytes(),
        ed25519_mixed_r_signature().as_slice(),
    );
    match r3 {
        Err(k) => return Err(k),
        Ok(()) => {},
    }
    let r4 = qualify_vector(
        provider,
        AlgorithmId::Ed25519,
        ed25519_mixed_a_public_key().as_slice(),
        ed25519_mixed_a_message().as_bytes(),
        ed25519_mixed_a_signature().as_slice(),
    );
    assert(ed25519_suite_rest(provider, &standard, r4));
    r4
}

/// The rest of the P-256 suite once the qualification key is bound to `v`.
pub open spec fn p256_suite_rest<V: ProviderVerifier>(
    v: &V,
    r: Result<(), ProviderQualificationErrorKind>,
) -> bool {
    let message = encode_utf8(p256_qualification_message_text());
    exists|r1: Result<(), ProviderQualificationErrorKind>|
        #[trigger] check_result(
            v,
            message,
            p256_qualification_low_signature_bytes(),
            ProviderVerificationOutcome::Verified,
            r1,
        ) && (r1 is Err ==> r == r1) && (r1 is Ok ==> exists|r2: Result<(), ProviderQualificationErrorKind>|
            #[trigger] check_result(
                v,
                message,
                p256_qualification_high_signature_bytes(),
                ProviderVerificationOutcome::Verified,
                r2,
            ) && (r2 is Err ==> r == r2) && (r2 is Ok ==> check_result(
                v,
                encode_utf8("different"@),
                p256_qualification_low_signature_bytes(),
                ProviderVerificationOutcome::SignatureMismatch,
                r,
            )))
}

/// Whether `r` is the outcome of the P-256 suite on the provider's answers,
/// stopping at the first failure.
pub open spec fn p256_suite_result<P: ProviderVerifierFactory>(
    provider: &P,
    r: Result<(), ProviderQualificationErrorKind>,
) -> bool {
    ||| bind_answer(
        provider,
        AlgorithmId::EcdsaP256Sha256,
        p256_qualification_public_key_bytes(),
        Err(ProviderBindFailure),
    ) && r == Err::<(), ProviderQualificationErrorKind>(ProviderQualificationErrorKind::KeyBindingFailed)
    ||| exists|v: P::Verifier|
        #[trigger] bind_answer(
            provider,
            AlgorithmId::EcdsaP256Sha256,
            p256_qualification_public_key_bytes(),
            Ok(v),
        ) && p256_suite_rest(&v, r)
}

/// Run the fixed P-256 suite: the low-S and high-S signatures must verify
/// and the low-S signature must not verify for another message.
pub fn qualify_p256_provider<P: ProviderVerifierFactory>(provider: &P) -> (r: Result<
    (),
    ProviderQualificationErrorKind,
>)
    ensures
        p256_suite_result(provider, r),
{
    let public_key = p256_qualification_public_key();
    let bound = provider.bind(AlgorithmId::EcdsaP256Sha256, public_key.as_slice());
    assert(bind_answer(
        provider,
        AlgorithmId::EcdsaP256Sha256,
        p256_qualification_public_key_bytes(),
        bound,
    ));
    let verifier = match bound {
        Ok(v) => v,
        Err(e) => {
            assert(e == ProviderBindFailure);
            return Err(ProviderQualificationErrorKind::KeyBindingFailed);
        },
    };
    let message = p256_qualification_message().as_bytes();
    let low = p256_qualification_low_signature();
    let high = p256_qualification_high_signature();
    let ghost text = encode_utf8(p256_qualification_message_text());
    let o1 = verifier.verify_provider(message, low.as_slice());
    assert(verify_answer(&verifier, text, p256_qualification_low_signature_bytes(), o1));
    let r1 = expect_provider_result(o1, ProviderVerificationOutcome::Verified);
    assert(check_result(
        &verifier,
        text,
        p256_qualification_low_signature_bytes(),
        ProviderVerificationOutcome::Verified,
        r1,
    ));
    match r1 {
        Err(k) => return Err(k),
        Ok(()) => {},
    }
    let o2 = verifier.verify_provider(message, high.as_slice());
    assert(verify_answer(&verifier, text, p256_qualification_high_signature_bytes(), o2));
    let r2 = expect_provider_result(o2, ProviderVerificationOutcome::Verified);
    assert(check_result(
        &verifier,
        text,
        p256_qualification_high_signature_bytes(),
        ProviderVerificationOutcome::Verified,
        r2,
    ));
    match r2 {
        Err(k) => return Err(k),
        Ok(()) => {},
    }
    let other = "different".as_bytes();
    let o3 = verifier.verify_provider(other, low.as_slice());
    assert(verify_answer(&verifier, encode_utf8("different"@), p256_qualification_low_signature_bytes(), o3));
    let r3 = expect_provider_result(o3, ProviderVerificationOutcome::SignatureMismatch);
    assert(check_result(
        &verifier,
        encode_utf8("different"@),
        p256_qualification_low_signature_bytes(),
        ProviderVerificationOutcome::SignatureMismatch,
        r3,
    ));
    r3
}

/// Builder for one exact in-process verification provider instance.
pub struct VerificationProviderBuilder<P> {
    provider: P,
}

impl<P> VerificationProviderBuilder<P> {
    /// Begin configuring one provider instance.
    pub fn new(provider: P) -> (r: Self)
        ensures
            r.spec_provider() == provider,
    {
        VerificationProviderBuilder { provider }
    }

    pub closed spec fn spec_provider(&self) -> P {
        self.provider
    }

    /// Skip qualification; every key bound through the result is bound
    /// without it.
    pub fn build_unqualified(self) -> (r: UnqualifiedVerificationProvider<P>)
        ensures
            r.spec_provider() == self.spec_provider(),
    {
        UnqualifiedVerificationProvider { provider: self.provider }
    }
}

impl<P: ProviderVerifierFactory> VerificationProviderBuilder<P> {
    /// Run the fixed suite independently for both algorithm slots.
    pub fn qualify(self) -> (r: QualifiedVerificationProvider<P>)
        ensures
            r.spec_provider() == self.spec_provider(),
            exists|res: Result<(), ProviderQualificationErrorKind>|
                #[trigger] ed25519_suite_result(&self.spec_provider(), res) && status_reports(
                    r.spec_status(AlgorithmId::Ed25519),
                    AlgorithmId::Ed25519,
                    res,
                ),
            exists|res: Result<(), ProviderQualificationErrorKind>|
                #[trigger] p256_suite_result(&self.spec_provider(), res) && status_reports(
                    r.spec_status(AlgorithmId::EcdsaP256Sha256),
                    AlgorithmId::EcdsaP256Sha256,
                    res,
                ),
    {
        let ed25519_result = qualify_ed25519_provider(&self.provider);
        let ed25519 = qualification_status(AlgorithmId::Ed25519, ed25519_result);
        let p256_result = qualify_p256_provider(&self.provider);
        let ecdsa_p256_sha256 = qualification_status(AlgorithmId::EcdsaP256Sha256, p256_result);
        let r = QualifiedVerificationProvider { provider: self.provider, ed25519, ecdsa_p256_sha256 };
        assert(ed25519_suite_result(&self.spec_provider(), ed25519_result) && status_reports(
            r.spec_status(AlgorithmId::Ed25519),
            AlgorithmId::Ed25519,
            ed25519_result,
        ));
        assert(p256_suite_result(&self.spec_provider(), p256_result) && status_reports(
            r.spec_status(AlgorithmId::EcdsaP256Sha256),
            AlgorithmId::EcdsaP256Sha256,
            p256_result,
        ));
        r
    }
}

/// A provider instance with independently qualified algorithm slots.
pub struct QualifiedVerificationProvider<P> {
    provider: P,
    ed25519: ProviderQualificationStatus,
    ecdsa_p256_sha256: ProviderQualificationStatus,
}

impl<P> QualifiedVerificationProvider<P> {
    pub closed spec fn spec_provider(&self) -> P {
        self.provider
    }

    pub closed spec fn spec_status(&self, algorithm: AlgorithmId) -> ProviderQualificationStatus {
        match algorithm {
            AlgorithmId::Ed25519 => self.ed25519,
            AlgorithmId::EcdsaP256Sha256 => self.ecdsa_p256_sha256,
        }
    }

    /// The qualified provider instance.
    pub fn provider(&self) -> (r: &P)
        ensures
            *r == self.spec_provider(),
    {
        &self.provider
    }

    /// The qualification status of an algorithm slot.
    pub fn status(&self, algorithm: AlgorithmId) -> (r: &ProviderQualificationStatus)
        ensures
            *r == self.spec_status(algorithm),
    {
        match algorithm {
            AlgorithmId::Ed25519 => &self.ed25519,
            AlgorithmId::EcdsaP256Sha256 => &self.ecdsa_p256_sha256,
        }
    }
}

/// The result of binding `key` for `algorithm` through a qualified slot,
/// given what the provider's `bind` returned when it was asked.
pub open spec fn qualified_binding_error(
    algorithm: AlgorithmId,
    key: Seq<u8>,
    status: ProviderQualificationStatus,
) -> Option<ProviderKeyBindingErrorKind> {
    if !provider_public_key_admissible(algorithm, key) {
        Some(ProviderKeyBindingErrorKind::InvalidPublicKey)
    } else if !(status is Qualified) {
        Some(ProviderKeyBindingErrorKind::AlgorithmNotQualified)
    } else {
        None
    }
}

impl<P: ProviderVerifierFactory> QualifiedVerificationProvider<P> {
    fn bind(&self, algorithm: AlgorithmId, canonical_public_key: &[u8]) -> (r: Result<
        ProviderVerifyingKey<P::Verifier>,
        ProviderKeyBindingError,
    >)
        ensures
            match qualified_binding_error(
                algorithm,
                canonical_public_key@,
                self.spec_status(algorithm),
            ) {
                Some(k) => r matches Err(e) && e.spec_kind() == k && e.spec_algorithm() == algorithm,
                None => match r {
                    Ok(key) => key.spec_algorithm() == algorithm && key.spec_public_key()
                        == canonical_public_key@,
                    Err(e) => e.spec_kind() == ProviderKeyBindingErrorKind::ProviderBindingFailed
                        && e.spec_algorithm() == algorithm,
                },
            },
    {
        match validate_public_key(algorithm, canonical_public_key) {
            Err(e) => return Err(e),
            Ok(()) => {},
        }
        if !self.status(algorithm).is_qualified() {
            return Err(binding_error(algorithm, ProviderKeyBindingErrorKind::AlgorithmNotQualified));
        }
        let verifier = match self.provider.bind(algorithm, canonical_public_key) {
            Ok(v) => v,
            Err(_) => {
                return Err(binding_error(algorithm, ProviderKeyBindingErrorKind::ProviderBindingFailed))
            },
        };
        Ok(
            ProviderVerifyingKey {
                algorithm,
                canonical_public_key: slice_to_vec(canonical_public_key),
                verifier,
            },
        )
    }

    /// Bind an admissible Ed25519 key when that slot qualified.
    pub fn bind_ed25519(&self, canonical_public_key: &[u8]) -> (r: Result<
        ProviderVerifyingKey<P::Verifier>,
        ProviderKeyBindingError,
    >)
        ensures
            match qualified_binding_error(
                AlgorithmId::Ed25519,
                canonical_public_key@,
                self.spec_status(AlgorithmId::Ed25519),
            ) {
                Some(k) => r matches Err(e) && e.spec_kind() == k && e.spec_algorithm()
                    == AlgorithmId::Ed25519,
                None => match r {
                    Ok(key) => key.spec_algorithm() == AlgorithmId::Ed25519 && key.spec_public_key()
                        == canonical_public_key@,
                    Err(e) => e.spec_kind() == ProviderKeyBindingErrorKind::ProviderBindingFailed
                        && e.spec_algorithm() == AlgorithmId::Ed25519,
                },
            },
    {
        self.bind(AlgorithmId::Ed25519, canonical_public_key)
    }

    /// Bind an admissible P-256 key when that slot qualified.
    pub fn bind_ecdsa_p256_sha256(&self, canonical_public_key: &[u8]) -> (r: Result<
        ProviderVerifyingKey<P::Verifier>,
        ProviderKeyBindingError,
    >)
        ensures
            match qualified_binding_error(
                AlgorithmId::EcdsaP256Sha256,
                canonical_public_key@,
                self.spec_status(AlgorithmId::EcdsaP256Sha256),
            ) {
                Some(k) => r matches Err(e) && e.spec_kind() == k && e.spec_algorithm()
                    == AlgorithmId::EcdsaP256Sha256,
                None => match r {
                    Ok(key) => key.spec_algorithm() == AlgorithmId::EcdsaP256Sha256
                        && key.spec_public_key() == canonical_public_key@,
                    Err(e) => e.spec_kind() == ProviderKeyBindingErrorKind::ProviderBindingFailed
                        && e.spec_algorithm() == AlgorithmId::EcdsaP256Sha256,
                },
            },
    {
        self.bind(AlgorithmId::EcdsaP256Sha256, canonical_public_key)
    }
}

/// A provider instance that skips qualification.
pub struct UnqualifiedVerificationProvider<P> {
    provider: P,
}

impl<P> UnqualifiedVerificationProvider<P> {
    pub closed spec fn spec_provider(&self) -> P {
        self.provider
    }

    /// The provider instance.
    pub fn provider(&self) -> (r: &P)
        ensures
            *r == self.spec_provider(),
    {
        &self.provider
    }
}

impl<P: ProviderVerifierFactory> UnqualifiedVerificationProvider<P> {
    fn bind(&self, algorithm: AlgorithmId, canonical_public_key: &[u8]) -> (r: Result<
        ProviderVerifyingKey<P::Verifier>,
        ProviderKeyBindingError,
    >)
        ensures
            !provider_public_key_admissible(algorithm, canonical_public_key@) ==> (r matches Err(e)
                && e.spec_kind() == ProviderKeyBindingErrorKind::InvalidPublicKey && e.spec_algorithm()
                == algorithm),
            provider_public_key_admissible(algorithm, canonical_public_key@) ==> match r {
                Ok(key) => key.spec_algorithm() == algorithm && key.spec_public_key()
                    == canonical_public_key@,
                Err(e) => e.spec_kind() == ProviderKeyBindingErrorKind::ProviderBindingFailed
                    && e.spec_algorithm() == algorithm,
            },
    {
        match validate_public_key(algorithm, canonical_public_key) {
            Err(e) => return Err(e),
            Ok(()) => {},
        }
        let verifier = match self.provider.bind(algorithm, canonical_public_key) {
            Ok(v) => v,
            Err(_) => {
                return Err(binding_error(algorithm, ProviderKeyBindingErrorKind::ProviderBindingFailed))
            },
        };
        Ok(
            ProviderVerifyingKey {
                algorithm,
                canonical_public_key: slice_to_vec(canonical_public_key),
                verifier,
            },
        )
    }

    /// Bind an admissible Ed25519 key without qualification.
    pub fn bind_ed25519(&self, canonical_public_key: &[u8]) -> (r: Result<
        UnqualifiedProviderVerifyingKey<P::Verifier>,
        ProviderKeyBindingError,
    >)
        ensures
            !provider_public_key_admissible(AlgorithmId::Ed25519, canonical_public_key@) ==> (r matches Err(
                e,
            ) && e.spec_kind() == ProviderKeyBindingErrorKind::InvalidPublicKey && e.spec_algorithm()
                == AlgorithmId::Ed25519),
            provider_public_key_admissible(AlgorithmId::Ed25519, canonical_public_key@) ==> match r {
                Ok(key) => key.spec_key().spec_algorithm() == AlgorithmId::Ed25519
                    && key.spec_key().spec_public_key() == canonical_public_key@,
                Err(e) => e.spec_kind() == ProviderKeyBindingErrorKind::ProviderBindingFailed
                    && e.spec_algorithm() == AlgorithmId::Ed25519,
            },
    {
        match self.bind(AlgorithmId::Ed25519, canonical_public_key) {
            Ok(key) => Ok(UnqualifiedProviderVerifyingKey { key }),
            Err(e) => Err(e),
        }
    }

    /// Bind an admissible P-256 key without qualification.
    pub fn bind_ecdsa_p256_sha256(&self, canonical_public_key: &[u8]) -> (r: Result<
        UnqualifiedProviderVerifyingKey<P::Verifier>,
        ProviderKeyBindingError,
    >)
        ensures
            !provider_public_key_admissible(AlgorithmId::EcdsaP256Sha256, canonical_public_key@) ==> (r matches Err(
                e,
            ) && e.spec_kind() == ProviderKeyBindingErrorKind::InvalidPublicKey && e.spec_algorithm()
                == AlgorithmId::EcdsaP256Sha256),
            provider_public_key_admissible(AlgorithmId::EcdsaP256Sha256, canonical_public_key@) ==> match r {
                Ok(key) => key.spec_key().spec_algorithm() == AlgorithmId::EcdsaP256Sha256
                    && key.spec_key().spec_public_key() == canonical_public_key@,
                Err(e) => e.spec_kind() == ProviderKeyBindingErrorKind::ProviderBindingFailed
                    && e.spec_algorithm() == AlgorithmId::EcdsaP256Sha256,
            },
    {
        match self.bind(AlgorithmId::EcdsaP256Sha256, canonical_public_key) {
            Ok(key) => Ok(UnqualifiedProviderVerifyingKey { key }),
            Err(e) => Err(e),
        }
    }
}

/// A public key bound through a qualified provider slot.
pub struct ProviderVerifyingKey<V> {
    algorithm: AlgorithmId,
    canonical_public_key: Vec<u8>,
    verifier: V,
}

impl<V> ProviderVerifyingKey<V> {
    pub closed spec fn spec_algorithm(&self) -> AlgorithmId {
        self.algorithm
    }

    pub closed spec fn spec_public_key(&self) -> Seq<u8> {
        self.canonical_public_key@
    }

    /// The verifier that the provider bound to the key.
    pub closed spec fn spec_verifier(&self) -> V {
        self.verifier
    }

    /// The algorithm the key was bound for.
    pub fn algorithm(&self) -> (r: AlgorithmId)
        ensures
            r == self.spec_algorithm(),
    {
        self.algorithm
    }

    /// The canonical public-key bytes the key was bound to.
    pub fn canonical_public_key(&self) -> (r: &[u8])
        ensures
            r@ == self.spec_public_key(),
    {
        self.canonical_public_key.as_slice()
    }
}

impl<V: ProviderVerifier> ProviderVerifyingKey<V> {
    /// The provider's verification of `signature` over `message`.
    pub fn verify(&self, message: &[u8], signature: &[u8]) -> (r: ProviderVerificationOutcome)
        ensures
            call_ensures(V::verify_provider, (&self.spec_verifier(), message, signature), r),
    {
        self.verifier.verify_provider(message, signature)
    }
}

/// A public key bound without provider qualification.
pub struct UnqualifiedProviderVerifyingKey<V> {
    key: ProviderVerifyingKey<V>,
}

impl<V> UnqualifiedProviderVerifyingKey<V> {
    pub closed spec fn spec_key(&self) -> ProviderVerifyingKey<V> {
        self.key
    }

    /// The algorithm the key was bound for.
    pub fn algorithm(&self) -> (r: AlgorithmId)
        ensures
            r == self.spec_key().spec_algorithm(),
    {
        self.key.algorithm()
    }

    /// The canonical public-key bytes the key was bound to.
    pub fn canonical_public_key(&self) -> (r: &[u8])
        ensures
            r@ == self.spec_key().spec_public_key(),
    {
        self.key.canonical_public_key()
    }
}

impl<V: ProviderVerifier> UnqualifiedProviderVerifyingKey<V> {
    /// The provider's verification of `signature` over `message`.
    pub fn verify(&self, message: &[u8], signature: &[u8]) -> (r: ProviderVerificationOutcome)
        ensures
            call_ensures(V::verify_provider, (&self.spec_key().spec_verifier(), message, signature), r),
    {
        self.key.verify(message, signature)
    }
}

/// Algorithm-indexed keys bound through qualified provider slots.
pub struct ProviderPublicKeys<'a, V> {
    pub ed25519: Option<&'a ProviderVerifyingKey<V>>,
    pub p256: Option<&'a ProviderVerifyingKey<V>>,
}

/// Algorithm-indexed keys bound without qualification.
pub struct UnqualifiedProviderPublicKeys<'a, V> {
    pub ed25519: Option<&'a UnqualifiedProviderVerifyingKey<V>>,
    pub p256: Option<&'a UnqualifiedProviderVerifyingKey<V>>,
}

/// What the provider verification stage decides before asking the provider.
pub enum ProviderStage {
    /// The stage is decided without the provider.
    Decided(Result<StateView, InvocationError>),
    /// The provider bound for this algorithm decides.
    Ask(AlgorithmId),
}

/// The algorithm and key bytes of an optional bound key.
pub open spec fn bound_key_view<V>(k: Option<&ProviderVerifyingKey<V>>) -> Option<(AlgorithmId, Seq<u8>)> {
    match k {
        Some(key) => Some((key.spec_algorithm(), key.spec_public_key())),
        None => None,
    }
}

/// The verifier of an optional bound key.
pub open spec fn bound_verifier<V>(k: Option<&ProviderVerifyingKey<V>>) -> Option<V> {
    match k {
        Some(key) => Some(key.spec_verifier()),
        None => None,
    }
}

/// Whether a bound key may serve the slot of `algorithm`.
pub open spec fn bound_key_admissible(key: (AlgorithmId, Seq<u8>), algorithm: AlgorithmId) -> bool {
    key.0 == algorithm && provider_public_key_admissible(algorithm, key.1)
}

/// The verification stage over extracted metadata with provider-bound keys,
/// up to the provider call.
pub open spec fn provider_stage(
    wire_alg: i32,
    sig: Seq<u8>,
    ed25519_key: Option<(AlgorithmId, Seq<u8>)>,
    p256_key: Option<(AlgorithmId, Seq<u8>)>,
    verify_ed: bool,
    verify_p256: bool,
) -> ProviderStage {
    if wire_alg <= 0 {
        ProviderStage::Decided(Ok(StateView::MalformedAttemptedSigned))
    } else {
        match algorithm_of_wire(wire_alg) {
            None => ProviderStage::Decided(Ok(StateView::MalformedAttemptedSigned)),
            Some(alg) => if sig.len() != 64 {
                ProviderStage::Decided(Ok(StateView::MalformedAttemptedSigned))
            } else {
                match alg {
                    AlgorithmId::Ed25519 => if !verify_ed {
                        ProviderStage::Decided(Ok(StateView::SignedButAlgorithmUnsupported(alg)))
                    } else if !ed25519_signature_canonical(sig) {
                        ProviderStage::Decided(Ok(StateView::MalformedAttemptedSigned))
                    } else {
                        match ed25519_key {
                            None => ProviderStage::Decided(Err(InvocationError::KeyResolutionFailure)),
                            Some(k) => if !bound_key_admissible(k, alg) {
                                ProviderStage::Decided(Err(InvocationError::KeyResolutionFailure))
                            } else {
                                ProviderStage::Ask(alg)
                            },
                        }
                    },
                    AlgorithmId::EcdsaP256Sha256 => if !verify_p256 {
                        ProviderStage::Decided(Ok(StateView::SignedButAlgorithmUnsupported(alg)))
                    } else {
                        match p256_key {
                            None => ProviderStage::Decided(Err(InvocationError::KeyResolutionFailure)),
                            Some(k) => if !p256_signature_well_formed(sig) {
                                ProviderStage::Decided(Ok(StateView::MalformedAttemptedSigned))
                            } else if !bound_key_admissible(k, alg) {
                                ProviderStage::Decided(Err(InvocationError::KeyResolutionFailure))
                            } else {
                                ProviderStage::Ask(alg)
                            },
                        }
                    },
                }
            },
        }
    }
}

/// The verifier state that a provider outcome stands for.
pub open spec fn provider_outcome_state(
    outcome: ProviderVerificationOutcome,
    payload: Seq<u8>,
    algorithm: AlgorithmId,
) -> Result<StateView, InvocationError> {
    match outcome {
        ProviderVerificationOutcome::Verified => Ok(StateView::Verified(payload, algorithm)),
        ProviderVerificationOutcome::SignatureMismatch => Ok(StateView::SignedButFailedVerification),
        ProviderVerificationOutcome::ProviderFailure => Err(InvocationError::KeyResolutionFailure),
    }
}

/// The verifier state for a provider outcome.
pub fn verification_state_from_provider_outcome(
    outcome: ProviderVerificationOutcome,
    payload: &[u8],
    algorithm: AlgorithmId,
) -> (r: Result<VerifierState, InvocationError>)
    ensures
        result_view(r) == provider_outcome_state(outcome, payload@, algorithm),
{
    match outcome {
        ProviderVerificationOutcome::Verified => Ok(
            VerifierState::Verified { payload: slice_to_vec(payload), algorithm },
        ),
        ProviderVerificationOutcome::SignatureMismatch => Ok(VerifierState::SignedButFailedVerification),
        ProviderVerificationOutcome::ProviderFailure => Err(InvocationError::KeyResolutionFailure),
    }
}

/// Whether `r` is what the provider stage yields: the decided result, or
/// the state that the answer of the verifier bound for the asked algorithm
/// stands for, on exactly the payload and signature octets.
pub open spec fn provider_verdict_is<V: ProviderVerifier>(
    r: Result<StateView, InvocationError>,
    stage: ProviderStage,
    payload: Seq<u8>,
    sig: Seq<u8>,
    ed25519_verifier: Option<V>,
    p256_verifier: Option<V>,
) -> bool {
    match stage {
        ProviderStage::Decided(v) => r == v,
        ProviderStage::Ask(alg) => exists|o: ProviderVerificationOutcome|
            #[trigger] bound_verifier_answer(
                asked_verifier(alg, ed25519_verifier, p256_verifier),
                payload,
                sig,
                o,
            ) && r == provider_outcome_state(o, payload, alg),
    }
}

/// The verifier of the slot of `alg`.
pub open spec fn asked_verifier<V>(alg: AlgorithmId, ed25519_verifier: Option<V>, p256_verifier: Option<V>) -> Option<V> {
    match alg {
        AlgorithmId::Ed25519 => ed25519_verifier,
        AlgorithmId::EcdsaP256Sha256 => p256_verifier,
    }
}

/// Whether a verifier is present and may answer the verification of `sig`
/// over `payload` with `o`.
pub open spec fn bound_verifier_answer<V: ProviderVerifier>(
    verifier: Option<V>,
    payload: Seq<u8>,
    sig: Seq<u8>,
    o: ProviderVerificationOutcome,
) -> bool {
    match verifier {
        Some(v) => verify_answer(&v, payload, sig, o),
        None => false,
    }
}

/// Verification of extracted payload, wire algorithm number, and signature
/// octets with provider-bound keys. Structural checks precede every
/// provider call; the provider's result is authoritative.
pub fn verify_extracted_signature_with_provider<V: ProviderVerifier>(
    payload: &[u8],
    wire_alg: i32,
    sig_octets: &[u8],
    ed25519: Option<&ProviderVerifyingKey<V>>,
    p256: Option<&ProviderVerifyingKey<V>>,
    options: &VerifierOptions,
) -> (r: Result<VerifierState, InvocationError>)
    ensures
        provider_verdict_is(
            result_view(r),
            provider_stage(
                wire_alg,
                sig_octets@,
                bound_key_view(ed25519),
                bound_key_view(p256),
                options.verify_ed25519,
                options.verify_ecdsa_p256_sha256,
            ),
            payload@,
            sig_octets@,
            bound_verifier(ed25519),
            bound_verifier(p256),
        ),
{
    if wire_alg <= 0 {
        return Ok(VerifierState::MalformedAttemptedSigned);
    }
    let alg = match AlgorithmId::from_i32(wire_alg) {
        Some(a) => a,
        None => return Ok(VerifierState::MalformedAttemptedSigned),
    };
    if sig_octets.len() != 64 {
        return Ok(VerifierState::MalformedAttemptedSigned);
    }
    let key = match alg {
        AlgorithmId::Ed25519 => {
            if !options.verify_ed25519 {
                return Ok(VerifierState::SignedButAlgorithmUnsupported { algorithm: alg });
            }
            if !ed25519_signature_is_canonical(sig_octets) {
                return Ok(VerifierState::MalformedAttemptedSigned);
            }
            match ed25519 {
                Some(k) => k,
                None => return Err(InvocationError::KeyResolutionFailure),
            }
        },
        AlgorithmId::EcdsaP256Sha256 => {
            if !options.verify_ecdsa_p256_sha256 {
                return Ok(VerifierState::SignedButAlgorithmUnsupported { algorithm: alg });
            }
            let k = match p256 {
                Some(k) => k,
                None => return Err(InvocationError::KeyResolutionFailure),
            };
            if !ecdsa_p256_signature_is_well_formed(sig_octets) {
                return Ok(VerifierState::MalformedAttemptedSigned);
            }
            k
        },
    };
    if key.algorithm() != alg || !provider_public_key_is_admissible(alg, key.canonical_public_key()) {
        return Err(InvocationError::KeyResolutionFailure);
    }
    let outcome = key.verify(payload, sig_octets);
    assert(verify_answer(&key.spec_verifier(), payload@, sig_octets@, outcome));
    let r = verification_state_from_provider_outcome(outcome, payload, alg);
    assert(result_view(r) == provider_outcome_state(outcome, payload@, alg));
    assert(bound_verifier_answer(
        asked_verifier(alg, bound_verifier(ed25519), bound_verifier(p256)),
        payload@,
        sig_octets@,
        outcome,
    ));
    r
}

/// The provider verification stage from a pre-verification result.
pub open spec fn provider_verdict_from_pre_verify<V: ProviderVerifier>(
    r: Result<StateView, InvocationError>,
    pre: PreVerifyView,
    ed25519_key: Option<(AlgorithmId, Seq<u8>)>,
    p256_key: Option<(AlgorithmId, Seq<u8>)>,
    options: VerifierOptions,
    ed25519_verifier: Option<V>,
    p256_verifier: Option<V>,
) -> bool {
    if options.algorithm_parameters@.len() > 0 {
        r == Err::<StateView, InvocationError>(InvocationError::InvalidAlgorithmParameters)
    } else if pre.outcome != PreVerifyOutcome::Extracted {
        r == Err::<StateView, InvocationError>(InvocationError::InvalidPreVerifyResult)
    } else {
        match (pre.payload, pre.metadata) {
            (Some(p), Some(m)) => provider_verdict_is(
                r,
                provider_stage(
                    crate::algorithm::wire_value(m.algorithm),
                    m.signature,
                    ed25519_key,
                    p256_key,
                    options.verify_ed25519,
                    options.verify_ecdsa_p256_sha256,
                ),
                p,
                m.signature,
                ed25519_verifier,
                p256_verifier,
            ),
            _ => r == Err::<StateView, InvocationError>(InvocationError::InvalidPreVerifyResult),
        }
    }
}

pub(crate) fn verify_pre_verified_with_bound_keys<V: ProviderVerifier>(
    pre: &PreVerifyResponse,
    ed25519: Option<&ProviderVerifyingKey<V>>,
    p256: Option<&ProviderVerifyingKey<V>>,
    options: &VerifierOptions,
) -> (r: Result<VerifierState, InvocationError>)
    ensures
        provider_verdict_from_pre_verify(
            result_view(r),
            pre_verify_view(*pre),
            bound_key_view(ed25519),
            bound_key_view(p256),
            *options,
            bound_verifier(ed25519),
            bound_verifier(p256),
        ),
{
    if options.algorithm_parameters.len() > 0 {
        return Err(InvocationError::InvalidAlgorithmParameters);
    }
    if pre.outcome != PreVerifyOutcome::Extracted {
        return Err(InvocationError::InvalidPreVerifyResult);
    }
    let payload = match &pre.unverified_payload_bytes {
        Some(p) => p,
        None => return Err(InvocationError::InvalidPreVerifyResult),
    };
    let sig = match &pre.unverified_signature {
        Some(s) => s,
        None => return Err(InvocationError::InvalidPreVerifyResult),
    };
    verify_extracted_signature_with_provider(
        payload.as_slice(),
        sig.algorithm.wire_value(),
        sig.signature_octets.as_slice(),
        ed25519,
        p256,
        options,
    )
}

/// The verification stage from a pre-verification result, with keys bound
/// through qualified provider slots.
pub fn verify_from_pre_verify_with_provider<V: ProviderVerifier>(
    pre: &PreVerifyResponse,
    keys: &ProviderPublicKeys<'_, V>,
    options: VerifierOptions,
) -> (r: Result<VerifierState, InvocationError>)
    ensures
        provider_verdict_from_pre_verify(
            result_view(r),
            pre_verify_view(*pre),
            bound_key_view(keys.ed25519),
            bound_key_view(keys.p256),
            options,
            bound_verifier(keys.ed25519),
            bound_verifier(keys.p256),
        ),
{
    verify_pre_verified_with_bound_keys(pre, keys.ed25519, keys.p256, &options)
}

pub open spec fn unqualified_key_view<V>(k: Option<&UnqualifiedProviderVerifyingKey<V>>) -> Option<
    (AlgorithmId, Seq<u8>),
> {
    match k {
        Some(key) => Some((key.spec_key().spec_algorithm(), key.spec_key().spec_public_key())),
        None => None,
    }
}

/// The verifier of an optional key bound without qualification.
pub open spec fn unqualified_verifier<V>(k: Option<&UnqualifiedProviderVerifyingKey<V>>) -> Option<V> {
    match k {
        Some(key) => Some(key.spec_key().spec_verifier()),
        None => None,
    }
}

pub(crate) fn inner_key<'a, V>(k: Option<&'a UnqualifiedProviderVerifyingKey<V>>) -> (r: Option<
    &'a ProviderVerifyingKey<V>,
>)
    ensures
        bound_key_view(r) == unqualified_key_view(k),
        bound_verifier(r) == unqualified_verifier(k),
{
    match k {
        Some(key) => Some(&key.key),
        None => None,
    }
}

/// The verification stage from a pre-verification result, with keys bound
/// without qualification.
pub fn verify_from_pre_verify_with_unqualified_provider<V: ProviderVerifier>(
    pre: &PreVerifyResponse,
    keys: &UnqualifiedProviderPublicKeys<'_, V>,
    options: VerifierOptions,
) -> (r: Result<VerifierState, InvocationError>)
    ensures
        provider_verdict_from_pre_verify(
            result_view(r),
            pre_verify_view(*pre),
            unqualified_key_view(keys.ed25519),
            unqualified_key_view(keys.p256),
            options,
            unqualified_verifier(keys.ed25519),
            unqualified_verifier(keys.p256),
        ),
{
    verify_pre_verified_with_bound_keys(pre, inner_key(keys.ed25519), inner_key(keys.p256), &options)
}

/// The verdict on a provider answer is success exactly when the answer is
/// the expected one. A verification where a mismatch was expected is an
/// accepted invalid signature; a mismatch where a verification was
/// expected is a rejected valid signature; a provider failure where
/// something else was expected is a provider failure.
pub proof fn lemma_expectation_result_exact(
    o: ProviderVerificationOutcome,
    expected: ProviderVerificationOutcome,
)
    ensures
        expectation_result(o, expected) is Ok <==> o == expected,
        o == ProviderVerificationOutcome::Verified && expected
            == ProviderVerificationOutcome::SignatureMismatch ==> expectation_result(o, expected) == Err::<
            (),
            ProviderQualificationErrorKind,
        >(ProviderQualificationErrorKind::InvalidSignatureAccepted),
        o == ProviderVerificationOutcome::SignatureMismatch && expected
            == ProviderVerificationOutcome::Verified ==> expectation_result(o, expected) == Err::<
            (),
            ProviderQualificationErrorKind,
        >(ProviderQualificationErrorKind::ValidSignatureRejected),
        o == ProviderVerificationOutcome::ProviderFailure && expected
            != ProviderVerificationOutcome::ProviderFailure ==> expectation_result(o, expected) == Err::<
            (),
            ProviderQualificationErrorKind,
        >(ProviderQualificationErrorKind::ProviderFailure),
{
}

/// The Ed25519 slot qualifies only if the verifier that the provider bound
/// to the RFC 8032 key answered `Verified` for the test signature over the
/// empty message and `SignatureMismatch` for the same signature over
/// another message.
pub proof fn lemma_ed25519_qualification_needs_exact_answers<P: ProviderVerifierFactory>(provider: &P)
    requires
        ed25519_suite_result(provider, Ok(())),
    ensures
        exists|v: P::Verifier|
            #[trigger] bind_answer(provider, AlgorithmId::Ed25519, rfc8032_test_1_public_key_bytes(), Ok(v))
                && verify_answer(
                &v,
                Seq::<u8>::empty(),
                rfc8032_test_1_signature_bytes(),
                ProviderVerificationOutcome::Verified,
            ) && verify_answer(
                &v,
                encode_utf8("not empty"@),
                rfc8032_test_1_signature_bytes(),
                ProviderVerificationOutcome::SignatureMismatch,
            ),
{
    let v = choose|v: P::Verifier|
        #[trigger] bind_answer(provider, AlgorithmId::Ed25519, rfc8032_test_1_public_key_bytes(), Ok(v))
            && ed25519_suite_rest(provider, &v, Ok(()));
    let r1 = choose|r1: Result<(), ProviderQualificationErrorKind>|
        #[trigger] check_result(
            &v,
            Seq::<u8>::empty(),
            rfc8032_test_1_signature_bytes(),
            ProviderVerificationOutcome::Verified,
            r1,
        ) && (r1 is Err ==> Ok::<(), ProviderQualificationErrorKind>(()) == r1) && (r1 is Ok ==> exists|
            r2: Result<(), ProviderQualificationErrorKind>,
        |
            #[trigger] check_result(
                &v,
                encode_utf8("not empty"@),
                rfc8032_test_1_signature_bytes(),
                ProviderVerificationOutcome::SignatureMismatch,
                r2,
            ) && (r2 is Err ==> Ok::<(), ProviderQualificationErrorKind>(()) == r2) && (r2 is Ok
                ==> exists|r3: Result<(), ProviderQualificationErrorKind>|
                #[trigger] vector_result(
                    provider,
                    AlgorithmId::Ed25519,
                    ed25519_mixed_r_public_key_bytes(),
                    encode_utf8(ed25519_mixed_r_message_text()),
                    ed25519_mixed_r_signature_bytes(),
                    r3,
                ) && (r3 is Err ==> Ok::<(), ProviderQualificationErrorKind>(()) == r3) && (r3 is Ok
                    ==> vector_result(
                    provider,
                    AlgorithmId::Ed25519,
                    ed25519_mixed_a_public_key_bytes(),
                    encode_utf8(ed25519_mixed_a_message_text()),
                    ed25519_mixed_a_signature_bytes(),
                    Ok(()),
                ))));
    let o1 = choose|o: ProviderVerificationOutcome|
        #[trigger] verify_answer(&v, Seq::<u8>::empty(), rfc8032_test_1_signature_bytes(), o) && r1
            == expectation_result(o, ProviderVerificationOutcome::Verified);
    lemma_expectation_result_exact(o1, ProviderVerificationOutcome::Verified);
    let r2 = choose|r2: Result<(), ProviderQualificationErrorKind>|
        #[trigger] check_result(
            &v,
            encode_utf8("not empty"@),
            rfc8032_test_1_signature_bytes(),
            ProviderVerificationOutcome::SignatureMismatch,
            r2,
        ) && (r2 is Err ==> Ok::<(), ProviderQualificationErrorKind>(()) == r2) && (r2 is Ok ==> exists|
            r3: Result<(), ProviderQualificationErrorKind>,
        |
            #[trigger] vector_result(
                provider,
                AlgorithmId::Ed25519,
                ed25519_mixed_r_public_key_bytes(),
                encode_utf8(ed25519_mixed_r_message_text()),
                ed25519_mixed_r_signature_bytes(),
                r3,
            ) && (r3 is Err ==> Ok::<(), ProviderQualificationErrorKind>(()) == r3) && (r3 is Ok
                ==> vector_result(
                provider,
                AlgorithmId::Ed25519,
                ed25519_mixed_a_public_key_bytes(),
                encode_utf8(ed25519_mixed_a_message_text()),
                ed25519_mixed_a_signature_bytes(),
                Ok(()),
            )));
    let o2 = choose|o: ProviderVerificationOutcome|
        #[trigger] verify_answer(&v, encode_utf8("not empty"@), rfc8032_test_1_signature_bytes(), o)
            && r2 == expectation_result(o, ProviderVerificationOutcome::SignatureMismatch);
    lemma_expectation_result_exact(o2, ProviderVerificationOutcome::SignatureMismatch);
}

/// The P-256 slot qualifies only if the verifier that the provider bound to
/// the qualification key answered `Verified` for the low-S and high-S
/// signatures over the qualification message and `SignatureMismatch` for
/// the low-S signature over another message.
pub proof fn lemma_p256_qualification_needs_exact_answers<P: ProviderVerifierFactory>(provider: &P)
    requires
        p256_suite_result(provider, Ok(())),
    ensures
        exists|v: P::Verifier|
            #[trigger] bind_answer(
                provider,
                AlgorithmId::EcdsaP256Sha256,
                p256_qualification_public_key_bytes(),
                Ok(v),
            ) && verify_answer(
                &v,
                encode_utf8(p256_qualification_message_text()),
                p256_qualification_low_signature_bytes(),
                ProviderVerificationOutcome::Verified,
            ) && verify_answer(
                &v,
                encode_utf8(p256_qualification_message_text()),
                p256_qualification_high_signature_bytes(),
                ProviderVerificationOutcome::Verified,
            ) && verify_answer(
                &v,
                encode_utf8("different"@),
                p256_qualification_low_signature_bytes(),
                ProviderVerificationOutcome::SignatureMismatch,
            ),
{
    let message = encode_utf8(p256_qualification_message_text());
    let v = choose|v: P::Verifier|
        #[trigger] bind_answer(
            provider,
            AlgorithmId::EcdsaP256Sha256,
            p256_qualification_public_key_bytes(),
            Ok(v),
        ) && p256_suite_rest(&v, Ok(()));
    let r1 = choose|r1: Result<(), ProviderQualificationErrorKind>|
        #[trigger] check_result(
            &v,
            message,
            p256_qualification_low_signature_bytes(),
            ProviderVerificationOutcome::Verified,
            r1,
        ) && (r1 is Err ==> Ok::<(), ProviderQualificationErrorKind>(()) == r1) && (r1 is Ok ==> exists|
            r2: Result<(), ProviderQualificationErrorKind>,
        |
            #[trigger] check_result(
                &v,
                message,
                p256_qualification_high_signature_bytes(),
                ProviderVerificationOutcome::Verified,
                r2,
            ) && (r2 is Err ==> Ok::<(), ProviderQualificationErrorKind>(()) == r2) && (r2 is Ok
                ==> check_result(
                &v,
                encode_utf8("different"@),
                p256_qualification_low_signature_bytes(),
                ProviderVerificationOutcome::SignatureMismatch,
                Ok(()),
            )));
    let o1 = choose|o: ProviderVerificationOutcome|
        #[trigger] verify_answer(&v, message, p256_qualification_low_signature_bytes(), o) && r1
            == expectation_result(o, ProviderVerificationOutcome::Verified);
    lemma_expectation_result_exact(o1, ProviderVerificationOutcome::Verified);
    let r2 = choose|r2: Result<(), ProviderQualificationErrorKind>|
        #[trigger] check_result(
            &v,
            message,
            p256_qualification_high_signature_bytes(),
            ProviderVerificationOutcome::Verified,
            r2,
        ) && (r2 is Err ==> Ok::<(), ProviderQualificationErrorKind>(()) == r2) && (r2 is Ok
            ==> check_result(
            &v,
            encode_utf8("different"@),
            p256_qualification_low_signature_bytes(),
            ProviderVerificationOutcome::SignatureMismatch,
            Ok(()),
        ));
    let o2 = choose|o: ProviderVerificationOutcome|
        #[trigger] verify_answer(&v, message, p256_qualification_high_signature_bytes(), o) && r2
            == expectation_result(o, ProviderVerificationOutcome::Verified);
    lemma_expectation_result_exact(o2, ProviderVerificationOutcome::Verified);
    let o3 = choose|o: ProviderVerificationOutcome|
        #[trigger] verify_answer(&v, encode_utf8("different"@), p256_qualification_low_signature_bytes(), o)
            && Ok::<(), ProviderQualificationErrorKind>(()) == expectation_result(
            o,
            ProviderVerificationOutcome::SignatureMismatch,
        );
    lemma_expectation_result_exact(o3, ProviderVerificationOutcome::SignatureMismatch);
}

/// Each provider-bound algorithm slot is gated by its own option alone:
/// with its option off, a well-sized signature for that slot is decided as
/// unsupported, whatever the keys and the other option; with its option on,
/// the stage does not depend on the other slot's option.
pub proof fn lemma_provider_options_gate_their_own_slot(
    sig: Seq<u8>,
    ed25519_key: Option<(AlgorithmId, Seq<u8>)>,
    p256_key: Option<(AlgorithmId, Seq<u8>)>,
    other: bool,
    other2: bool,
)
    requires
        sig.len() == 64,
    ensures
        provider_stage(wire_value(AlgorithmId::Ed25519), sig, ed25519_key, p256_key, false, other)
            == ProviderStage::Decided(
            Ok(StateView::SignedButAlgorithmUnsupported(AlgorithmId::Ed25519)),
        ),
        provider_stage(wire_value(AlgorithmId::EcdsaP256Sha256), sig, ed25519_key, p256_key, other, false)
            == ProviderStage::Decided(
            Ok(StateView::SignedButAlgorithmUnsupported(AlgorithmId::EcdsaP256Sha256)),
        ),
        provider_stage(wire_value(AlgorithmId::Ed25519), sig, ed25519_key, p256_key, true, other)
            == provider_stage(wire_value(AlgorithmId::Ed25519), sig, ed25519_key, p256_key, true, other2),
        provider_stage(wire_value(AlgorithmId::EcdsaP256Sha256), sig, ed25519_key, p256_key, other, true)
            == provider_stage(wire_value(AlgorithmId::EcdsaP256Sha256), sig, ed25519_key, p256_key, other2, true),
{
}

} // verus!
