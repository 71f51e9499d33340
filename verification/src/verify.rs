//! Verification: the verifier states, pre-verification (structure and
//! metadata), and the verification stage over extracted metadata.

use vstd::prelude::*;
use vstd::slice::slice_to_vec;
use vstd::utf8::encode_utf8;
use crate::algorithm::{
    algorithm_of_wire, algorithm_of_yaml_chars, wire_value, AlgorithmId, SCHEMA_V1ALPHA1,
};
use crate::conformance::OuterConformance;
use crate::crypto::{
    ecdsa_p256_signature_is_well_formed, ed25519_key_admissible, ed25519_signature_canonical,
    ed25519_signature_is_canonical, ed25519_verifies, ed25519_verifying_key_is_admissible,
    p256_ecdsa_verifies, p256_sec1_key_accepted, p256_signature_well_formed, verify_ecdsa_p256_sha256,
    verify_ed25519,
};
use crate::error::CoreError;
use crate::external::{base64_url_decode, base64_url_nopad_decoding, chars_of};
use crate::payload::{valid_payload, validate_payload_stream};
use crate::pb::{decode_signature_model, SigModel};
use crate::proto_outer::proto_outer_decomposition;
use crate::resource::{
    error_facts, exceeds, ArtifactResourceError, ArtifactResourceErrorKind, ArtifactResourceForm,
    ArtifactResourceLimits,
};
use crate::signature_doc::SignatureDocument;
use crate::transcription::{
    decompose, yaml_decompose_view, DecomposeOutcome, DecomposeRequest, DecomposeResponse,
    DecomposeView, TranscriptionForm,
};
use crate::wire::{owned_keyid_view, view_signature_carrier};

verus! {

/// Artifact encoding form.
#[derive(Debug, Clone, Copy, PartialEq, Eq, Hash, Structural)]
pub enum ArtifactForm {
    Yaml,
    Proto,
}

/// Request-shape and key failures reported instead of a verifier state.
#[derive(Debug, Clone, Copy, PartialEq, Eq, Hash, Structural)]
pub enum InvocationError {
    InvalidAlgorithmParameters,
    KeyResolutionFailure,
    TrustPolicyConfigurationError,
    InvalidPreVerifyResult,
    InvalidOrUnsupportedForm,
}

/// The five verifier states.
#[derive(Debug, Clone, PartialEq, Eq)]
pub enum VerifierState {
    Verified { payload: Vec<u8>, algorithm: AlgorithmId },
    Unsigned,
    MalformedAttemptedSigned,
    SignedButAlgorithmUnsupported { algorithm: AlgorithmId },
    SignedButFailedVerification,
}

/// The abstract content of a verifier state.
pub enum StateView {
    Verified(Seq<u8>, AlgorithmId),
    Unsigned,
    MalformedAttemptedSigned,
    SignedButAlgorithmUnsupported(AlgorithmId),
    SignedButFailedVerification,
}

pub open spec fn state_view(s: VerifierState) -> StateView {
    match s {
        VerifierState::Verified { payload, algorithm } => StateView::Verified(payload@, algorithm),
        VerifierState::Unsigned => StateView::Unsigned,
        VerifierState::MalformedAttemptedSigned => StateView::MalformedAttemptedSigned,
        VerifierState::SignedButAlgorithmUnsupported { algorithm } =>
            StateView::SignedButAlgorithmUnsupported(algorithm),
        VerifierState::SignedButFailedVerification => StateView::SignedButFailedVerification,
    }
}

pub open spec fn result_view(r: Result<VerifierState, InvocationError>) -> Result<
    StateView,
    InvocationError,
> {
    match r {
        Ok(s) => Ok(state_view(s)),
        Err(e) => Err(e),
    }
}

/// Outcome of pre-verification.
#[derive(Debug, Clone, Copy, PartialEq, Eq, Hash, Structural)]
pub enum PreVerifyOutcome {
    /// Payload and signature metadata were extracted.
    Extracted,
    Unsigned,
    StructuralFailure,
    MetadataParseFailure,
}

/// Signature metadata extracted without verification.
#[derive(Debug, Clone, PartialEq, Eq)]
pub struct UnverifiedSignature {
    pub algorithm: AlgorithmId,
    pub keyid: Option<String>,
    pub signature_octets: Vec<u8>,
}

/// Result of pre-verification.
#[derive(Debug, Clone, PartialEq, Eq)]
pub struct PreVerifyResponse {
    pub outcome: PreVerifyOutcome,
    pub form: ArtifactForm,
    pub unverified_payload_bytes: Option<Vec<u8>>,
    pub unverified_signature: Option<UnverifiedSignature>,
    pub parser_observations: Vec<String>,
}

/// Caller options for verification.
#[derive(Debug, Clone)]
pub struct VerifierOptions {
    pub verify_ed25519: bool,
    pub verify_ecdsa_p256_sha256: bool,
    pub reject_unknown_signature_document_fields: bool,
    pub algorithm_parameters: Vec<u8>,
}

impl Default for VerifierOptions {
    fn default() -> (r: Self)
        ensures
            r.verify_ed25519,
            r.verify_ecdsa_p256_sha256,
            !r.reject_unknown_signature_document_fields,
            r.algorithm_parameters@.len() == 0,
    {
        VerifierOptions {
            verify_ed25519: true,
            verify_ecdsa_p256_sha256: true,
            reject_unknown_signature_document_fields: false,
            algorithm_parameters: Vec::new(),
        }
    }
}

/// A verifier state with the parser observations that were requested.
#[derive(Debug, Clone, PartialEq, Eq)]
pub struct VerifyResult {
    pub state: VerifierState,
    pub parser_observations: Vec<String>,
}

/// Caller-supplied verification keys, as their public encodings: 32
/// compressed bytes for Ed25519, 65 SEC 1 bytes for P-256.
#[derive(Debug, Clone, PartialEq, Eq)]
pub struct PublicKeys {
    pub ed25519: Option<Vec<u8>>,
    pub p256: Option<Vec<u8>>,
}

pub open spec fn opt_key(k: Option<Vec<u8>>) -> Option<Seq<u8>> {
    match k {
        Some(v) => Some(v@),
        None => None,
    }
}

/// The verification stage over extracted metadata.
pub open spec fn extracted_verdict(
    payload: Seq<u8>,
    wire_alg: i32,
    sig: Seq<u8>,
    ed25519_key: Option<Seq<u8>>,
    p256_key: Option<Seq<u8>>,
    verify_ed: bool,
    verify_p256: bool,
) -> Result<StateView, InvocationError> {
    if wire_alg <= 0 {
        Ok(StateView::MalformedAttemptedSigned)
    } else {
        match algorithm_of_wire(wire_alg) {
            None => Ok(StateView::MalformedAttemptedSigned),
            Some(alg) => if sig.len() != 64 {
                Ok(StateView::MalformedAttemptedSigned)
            } else {
                match alg {
                    AlgorithmId::Ed25519 => if !verify_ed {
                        Ok(StateView::SignedButAlgorithmUnsupported(alg))
                    } else if !ed25519_signature_canonical(sig) {
                        Ok(StateView::MalformedAttemptedSigned)
                    } else {
                        match ed25519_key {
                            None => Err(InvocationError::KeyResolutionFailure),
                            Some(k) => if !ed25519_key_admissible(k) {
                                Err(InvocationError::KeyResolutionFailure)
                            } else if ed25519_verifies(k, payload, sig) {
                                Ok(StateView::Verified(payload, alg))
                            } else {
                                Ok(StateView::SignedButFailedVerification)
                            },
                        }
                    },
                    AlgorithmId::EcdsaP256Sha256 => if !verify_p256 {
                        Ok(StateView::SignedButAlgorithmUnsupported(alg))
                    } else {
                        match p256_key {
                            None => Err(InvocationError::KeyResolutionFailure),
                            Some(k) => if !p256_signature_well_formed(sig) {
                                Ok(StateView::MalformedAttemptedSigned)
                            } else if !p256_sec1_key_accepted(k) {
                                Err(InvocationError::KeyResolutionFailure)
                            } else if p256_ecdsa_verifies(k, payload, sig) {
                                Ok(StateView::Verified(payload, alg))
                            } else {
                                Ok(StateView::SignedButFailedVerification)
                            },
                        }
                    },
                }
            },
        }
    }
}

/// Cryptographic verification of extracted payload, wire algorithm number,
/// and signature octets. Form-agnostic.
pub fn verify_extracted_signature(
    payload: &[u8],
    wire_alg: i32,
    sig_octets: &[u8],
    keys: &PublicKeys,
    options: &VerifierOptions,
) -> (r: Result<VerifierState, InvocationError>)
    ensures
        result_view(r) == extracted_verdict(
            payload@,
            wire_alg,
            sig_octets@,
            opt_key(keys.ed25519),
            opt_key(keys.p256),
            options.verify_ed25519,
            options.verify_ecdsa_p256_sha256,
        ),
{
    if wire_alg <= 0 {
        return Ok(VerifierState::MalformedAttemptedSigned);
    }
    let alg = match AlgorithmId::from_i32(wire_alg) {
        Some(a) => a,
        None => return Ok(VerifierState::MalformedAttemptedSigned),
    };
    if sig_octets.len() == 0 {
        return Ok(VerifierState::MalformedAttemptedSigned);
    }
    if sig_octets.len() != 64 {
        return Ok(VerifierState::MalformedAttemptedSigned);
    }
    match alg {
        AlgorithmId::Ed25519 => {
            if !options.verify_ed25519 {
                return Ok(VerifierState::SignedButAlgorithmUnsupported { algorithm: alg });
            }
            if !ed25519_signature_is_canonical(sig_octets) {
                return Ok(VerifierState::MalformedAttemptedSigned);
            }
            let vk = match &keys.ed25519 {
                Some(k) => k,
                None => return Err(InvocationError::KeyResolutionFailure),
            };
            if !ed25519_verifying_key_is_admissible(vk.as_slice()) {
                return Err(InvocationError::KeyResolutionFailure);
            }
            match verify_ed25519(vk.as_slice(), payload, sig_octets) {
                Ok(()) => Ok(VerifierState::Verified { payload: slice_to_vec(payload), algorithm: alg }),
                Err(()) => Ok(VerifierState::SignedButFailedVerification),
            }
        },
        AlgorithmId::EcdsaP256Sha256 => {
            if !options.verify_ecdsa_p256_sha256 {
                return Ok(VerifierState::SignedButAlgorithmUnsupported { algorithm: alg });
            }
            let vk = match &keys.p256 {
                Some(k) => k,
                None => return Err(InvocationError::KeyResolutionFailure),
            };
            if !ecdsa_p256_signature_is_well_formed(sig_octets) {
                return Ok(VerifierState::MalformedAttemptedSigned);
            }
            if !crate::crypto::p256_verifying_key_is_accepted(vk.as_slice()) {
                return Err(InvocationError::KeyResolutionFailure);
            }
            match verify_ecdsa_p256_sha256(vk.as_slice(), payload, sig_octets) {
                Ok(()) => Ok(VerifierState::Verified { payload: slice_to_vec(payload), algorithm: alg }),
                Err(_) => Ok(VerifierState::SignedButFailedVerification),
            }
        },
    }
}

/// The pre-verification response with no extracted data.
fn bare_response(outcome: PreVerifyOutcome, form: ArtifactForm) -> (r: PreVerifyResponse)
    ensures
        r.outcome == outcome,
        r.form == form,
        r.unverified_payload_bytes is None,
        r.unverified_signature is None,
        r.parser_observations@.len() == 0,
{
    PreVerifyResponse {
        outcome,
        form,
        unverified_payload_bytes: None,
        unverified_signature: None,
        parser_observations: Vec::new(),
    }
}

/// Whether a key identifier is acceptable metadata: 1 to 1024 UTF-8 bytes
/// with no CR or LF.
pub open spec fn keyid_valid(k: Seq<char>) -> bool {
    1 <= encode_utf8(k).len() <= 1024 && !k.contains('\r') && !k.contains('\n')
}

/// Whether a key identifier is acceptable metadata.
pub fn keyid_is_valid(keyid: &str) -> (r: bool)
    ensures
        r == keyid_valid(keyid@),
{
    let len = keyid.as_bytes().len();
    if len < 1 || len > 1024 {
        return false;
    }
    let chars = chars_of(keyid);
    let mut i: usize = 0;
    while i < chars.len()
        invariant
            i <= chars.len(),
            chars@ == keyid@,
            forall|j: int| 0 <= j < i ==> chars@[j] != '\r' && chars@[j] != '\n',
        decreases chars.len() - i,
    {
        if chars[i] == '\r' || chars[i] == '\n' {
            assert(keyid@[i as int] == chars@[i as int]);
            return false;
        }
        i = i + 1;
    }
    true
}

/// The abstract content of extracted metadata: algorithm, key identifier
/// bytes, signature octets.
pub struct MetadataView {
    pub algorithm: AlgorithmId,
    pub keyid: Option<Seq<u8>>,
    pub signature: Seq<u8>,
}

pub open spec fn unverified_view(u: UnverifiedSignature) -> MetadataView {
    MetadataView {
        algorithm: u.algorithm,
        keyid: owned_keyid_view(u.keyid),
        signature: u.signature_octets@,
    }
}

/// Metadata extraction from a decoded protobuf signature message.
pub open spec fn proto_metadata(s: SigModel) -> Result<MetadataView, PreVerifyOutcome> {
    if s.alg <= 0 {
        Err(PreVerifyOutcome::MetadataParseFailure)
    } else {
        match algorithm_of_wire(s.alg) {
            None => Err(PreVerifyOutcome::MetadataParseFailure),
            Some(a) => if !keyid_chars_valid(s.keyid) {
                Err(PreVerifyOutcome::MetadataParseFailure)
            } else {
                Ok(MetadataView { algorithm: a, keyid: s.keyid, signature: s.signature })
            },
        }
    }
}

/// Key-identifier validity over its UTF-8 bytes.
pub open spec fn keyid_chars_valid(k: Option<Seq<u8>>) -> bool {
    match k {
        Some(b) => keyid_valid(vstd::utf8::decode_utf8(b)),
        None => true,
    }
}

/// Extract metadata from opaque protobuf signature-carrier bytes.
fn extract_proto_metadata(carrier: &[u8]) -> (r: Result<UnverifiedSignature, PreVerifyOutcome>)
    ensures
        match decode_signature_model(carrier@) {
            Err(_) => r == Err::<UnverifiedSignature, PreVerifyOutcome>(
                PreVerifyOutcome::MetadataParseFailure,
            ),
            Ok(s) => match proto_metadata(s) {
                Ok(m) => r matches Ok(u) && unverified_view(u) == m,
                Err(o) => r == Err::<UnverifiedSignature, PreVerifyOutcome>(o),
            },
        },
{
    let inner = match view_signature_carrier(carrier) {
        Ok(v) => v,
        Err(_) => return Err(PreVerifyOutcome::MetadataParseFailure),
    };
    if inner.alg_wire <= 0 {
        return Err(PreVerifyOutcome::MetadataParseFailure);
    }
    let algorithm = match AlgorithmId::from_i32(inner.alg_wire) {
        Some(a) => a,
        None => return Err(PreVerifyOutcome::MetadataParseFailure),
    };
    match &inner.keyid {
        Some(k) => {
            proof {
                vstd::utf8::encode_utf8_decode_utf8(k@);
            }
            if !keyid_is_valid(k.as_str()) {
                return Err(PreVerifyOutcome::MetadataParseFailure);
            }
        },
        None => {},
    }
    Ok(UnverifiedSignature { algorithm, keyid: inner.keyid, signature_octets: inner.signature })
}

/// The abstract content of a pre-verification response.
pub struct PreVerifyView {
    pub outcome: PreVerifyOutcome,
    pub form: ArtifactForm,
    pub payload: Option<Seq<u8>>,
    pub metadata: Option<MetadataView>,
}

pub open spec fn pre_verify_view(r: PreVerifyResponse) -> PreVerifyView {
    PreVerifyView {
        outcome: r.outcome,
        form: r.form,
        payload: match r.unverified_payload_bytes {
            Some(p) => Some(p@),
            None => None,
        },
        metadata: match r.unverified_signature {
            Some(u) => Some(unverified_view(u)),
            None => None,
        },
    }
}

pub open spec fn failed_view(outcome: PreVerifyOutcome, form: ArtifactForm) -> PreVerifyView {
    PreVerifyView { outcome, form, payload: None, metadata: None }
}

/// Protobuf pre-verification: outer decomposition under signature-strict
/// conformance, then metadata extraction from the carrier.
pub open spec fn proto_pre_verify(wire: Seq<u8>) -> PreVerifyView {
    match proto_outer_decomposition(wire, OuterConformance::SignatureStrict) {
        None => failed_view(PreVerifyOutcome::StructuralFailure, ArtifactForm::Proto),
        Some((p, c)) => match decode_signature_model(c) {
            Err(_) => failed_view(PreVerifyOutcome::MetadataParseFailure, ArtifactForm::Proto),
            Ok(s) => match proto_metadata(s) {
                Err(o) => failed_view(o, ArtifactForm::Proto),
                Ok(m) => PreVerifyView {
                    outcome: PreVerifyOutcome::Extracted,
                    form: ArtifactForm::Proto,
                    payload: Some(p),
                    metadata: Some(m),
                },
            },
        },
    }
}

/// Structural and metadata pre-verification of protobuf wire bytes; no keys
/// and no cryptography.
pub fn pre_verify_proto(wire: &[u8]) -> (r: PreVerifyResponse)
    ensures
        pre_verify_view(r) == proto_pre_verify(wire@),
        r.parser_observations@.len() == 0,
{
    let resp = decompose(
        &DecomposeRequest {
            artifact: wire,
            form: TranscriptionForm::Protobuf,
            outer_conformance: Some(OuterConformance::SignatureStrict),
        },
    );
    let structural = match resp {
        DecomposeResponse::Shape(s) => s,
        DecomposeResponse::Invocation(_) => {
            return bare_response(PreVerifyOutcome::StructuralFailure, ArtifactForm::Proto)
        },
    };
    if structural.outcome != DecomposeOutcome::Recovered {
        return bare_response(PreVerifyOutcome::StructuralFailure, ArtifactForm::Proto);
    }
    let payload = match structural.payload {
        Some(p) => p,
        None => return bare_response(PreVerifyOutcome::StructuralFailure, ArtifactForm::Proto),
    };
    let carrier = match structural.signature_carrier {
        Some(c) => c,
        None => return bare_response(PreVerifyOutcome::StructuralFailure, ArtifactForm::Proto),
    };
    match extract_proto_metadata(carrier.as_slice()) {
        Ok(sig) => PreVerifyResponse {
            outcome: PreVerifyOutcome::Extracted,
            form: ArtifactForm::Proto,
            unverified_payload_bytes: Some(payload),
            unverified_signature: Some(sig),
            parser_observations: Vec::new(),
        },
        Err(o) => bare_response(o, ArtifactForm::Proto),
    }
}

/// Protobuf pre-verification after applying an explicit input policy.
pub fn pre_verify_proto_with_resource_limits(wire: &[u8], limits: &ArtifactResourceLimits) -> (r:
    Result<PreVerifyResponse, ArtifactResourceError>)
    ensures
        exceeds(limits@, wire@.len() as int) ==> (r matches Err(e) && e@ == error_facts(
            ArtifactResourceErrorKind::InputArtifactTooLarge,
            ArtifactResourceForm::Protobuf,
            limits@,
            Some(wire@.len() as usize),
        )),
        !exceeds(limits@, wire@.len() as int) ==> (r matches Ok(p) && pre_verify_view(p)
            == proto_pre_verify(wire@)),
{
    match limits.check_input_size(ArtifactResourceForm::Protobuf, wire) {
        Err(e) => Err(e),
        Ok(_) => Ok(pre_verify_proto(wire)),
    }
}

/// The verification stage over a pre-verification view of `form`.
pub open spec fn verdict_from_pre_verify(
    pre: PreVerifyView,
    form: ArtifactForm,
    keys: PublicKeys,
    options: VerifierOptions,
) -> Result<StateView, InvocationError> {
    if options.algorithm_parameters@.len() > 0 {
        Err(InvocationError::InvalidAlgorithmParameters)
    } else if pre.form != form || pre.outcome != PreVerifyOutcome::Extracted {
        Err(InvocationError::InvalidPreVerifyResult)
    } else {
        match pre.payload {
            None => Err(InvocationError::InvalidPreVerifyResult),
            Some(p) => match pre.metadata {
                None => Err(InvocationError::InvalidPreVerifyResult),
                Some(m) => extracted_verdict(
                    p,
                    wire_value(m.algorithm),
                    m.signature,
                    opt_key(keys.ed25519),
                    opt_key(keys.p256),
                    options.verify_ed25519,
                    options.verify_ecdsa_p256_sha256,
                ),
            },
        }
    }
}

fn verify_from_pre_verify_of_form(
    pre: &PreVerifyResponse,
    form: ArtifactForm,
    keys: &PublicKeys,
    options: &VerifierOptions,
) -> (r: Result<VerifierState, InvocationError>)
    ensures
        result_view(r) == verdict_from_pre_verify(pre_verify_view(*pre), form, *keys, *options),
{
    if options.algorithm_parameters.len() > 0 {
        return Err(InvocationError::InvalidAlgorithmParameters);
    }
    if pre.form != form || pre.outcome != PreVerifyOutcome::Extracted {
        return Err(InvocationError::InvalidPreVerifyResult);
    }
    let payload = match &pre.unverified_payload_bytes {
        Some(p) => p,
        None => return Err(InvocationError::InvalidPreVerifyResult),
    };
    let sig = match &pre.unverified_signature {
        Some(s) => s,
        None => return Err(InvocationError::InvalidPreVerifyResult),
    };
    verify_extracted_signature(
        payload.as_slice(),
        sig.algorithm.wire_value(),
        sig.signature_octets.as_slice(),
        keys,
        options,
    )
}

/// Verification stage from a YAML pre-verification result.
pub fn verify_from_pre_verify_yaml(
    pre: &PreVerifyResponse,
    keys: &PublicKeys,
    options: VerifierOptions,
) -> (r: Result<VerifierState, InvocationError>)
    ensures
        result_view(r) == verdict_from_pre_verify(
            pre_verify_view(*pre),
            ArtifactForm::Yaml,
            *keys,
            options,
        ),
{
    verify_from_pre_verify_of_form(pre, ArtifactForm::Yaml, keys, &options)
}

/// Verification stage from a protobuf pre-verification result.
pub fn verify_from_pre_verify_proto(
    pre: &PreVerifyResponse,
    keys: &PublicKeys,
    options: VerifierOptions,
) -> (r: Result<VerifierState, InvocationError>)
    ensures
        result_view(r) == verdict_from_pre_verify(
            pre_verify_view(*pre),
            ArtifactForm::Proto,
            *keys,
            options,
        ),
{
    verify_from_pre_verify_of_form(pre, ArtifactForm::Proto, keys, &options)
}

/// Verification stage from a pre-verification result of either form.
pub fn verify_from_pre_verify(
    pre: &PreVerifyResponse,
    keys: &PublicKeys,
    options: VerifierOptions,
) -> (r: Result<VerifierState, InvocationError>)
    ensures
        result_view(r) == verdict_from_pre_verify(pre_verify_view(*pre), pre.form, *keys, options),
{
    verify_from_pre_verify_of_form(pre, pre.form, keys, &options)
}

/// The verifier state after a pre-verification of `form`.
pub open spec fn state_after_pre_verify(
    pre: PreVerifyView,
    form: ArtifactForm,
    keys: PublicKeys,
    options: VerifierOptions,
) -> Result<StateView, InvocationError> {
    if options.algorithm_parameters@.len() > 0 {
        Err(InvocationError::InvalidAlgorithmParameters)
    } else {
        match pre.outcome {
            PreVerifyOutcome::Extracted => verdict_from_pre_verify(pre, form, keys, options),
            PreVerifyOutcome::Unsigned => Ok(StateView::Unsigned),
            _ => Ok(StateView::MalformedAttemptedSigned),
        }
    }
}

/// The verification that follows pre-verification of `form`: extracted
/// metadata is verified, an unsigned artifact is `Unsigned`, every failure is
/// `MalformedAttemptedSigned`.
pub fn verify_after_pre_verify(
    pre: &PreVerifyResponse,
    form: ArtifactForm,
    keys: &PublicKeys,
    options: VerifierOptions,
    include_parser_observations: bool,
) -> (r: Result<VerifyResult, InvocationError>)
    ensures
        match r {
            Ok(v) => state_after_pre_verify(pre_verify_view(*pre), form, *keys, options) == Ok::<
                StateView,
                InvocationError,
            >(state_view(v.state)) && (!include_parser_observations
                ==> v.parser_observations@.len() == 0),
            Err(e) => state_after_pre_verify(pre_verify_view(*pre), form, *keys, options) == Err::<
                StateView,
                InvocationError,
            >(e),
        },
{
    if options.algorithm_parameters.len() > 0 {
        return Err(InvocationError::InvalidAlgorithmParameters);
    }
    let state = match pre.outcome {
        PreVerifyOutcome::Extracted => match verify_from_pre_verify_of_form(pre, form, keys, &options) {
            Ok(s) => s,
            Err(e) => return Err(e),
        },
        PreVerifyOutcome::Unsigned => VerifierState::Unsigned,
        _ => VerifierState::MalformedAttemptedSigned,
    };
    let parser_observations = if include_parser_observations {
        pre.parser_observations.clone()
    } else {
        Vec::new()
    };
    Ok(VerifyResult { state, parser_observations })
}

/// Verify protobuf wire bytes: pre-verification, then the verification
/// stage.
pub fn verify_proto(wire: &[u8], keys: &PublicKeys, options: VerifierOptions) -> (r: Result<
    VerifierState,
    InvocationError,
>)
    ensures
        result_view(r) == state_after_pre_verify(
            proto_pre_verify(wire@),
            ArtifactForm::Proto,
            *keys,
            options,
        ),
{
    if options.algorithm_parameters.len() > 0 {
        return Err(InvocationError::InvalidAlgorithmParameters);
    }
    let pre = pre_verify_proto(wire);
    match verify_after_pre_verify(&pre, ArtifactForm::Proto, keys, options, false) {
        Ok(v) => Ok(v.state),
        Err(e) => Err(e),
    }
}

/// Verify protobuf wire after applying an explicit complete-input policy.
pub fn verify_proto_with_resource_limits(
    wire: &[u8],
    keys: &PublicKeys,
    options: VerifierOptions,
    limits: &ArtifactResourceLimits,
) -> (r: Result<Result<VerifierState, InvocationError>, ArtifactResourceError>)
    ensures
        exceeds(limits@, wire@.len() as int) ==> (r matches Err(e) && e@ == error_facts(
            ArtifactResourceErrorKind::InputArtifactTooLarge,
            ArtifactResourceForm::Protobuf,
            limits@,
            Some(wire@.len() as usize),
        )),
        !exceeds(limits@, wire@.len() as int) ==> (r matches Ok(v) && result_view(v)
            == state_after_pre_verify(proto_pre_verify(wire@), ArtifactForm::Proto, *keys, options)),
{
    match limits.check_input_size(ArtifactResourceForm::Protobuf, wire) {
        Err(e) => Err(e),
        Ok(_) => Ok(verify_proto(wire, keys, options)),
    }
}

/// Whether a pre-verification outcome lets verification proceed.
pub fn can_pre_verify_outcome(outcome: PreVerifyOutcome, form: ArtifactForm, allow_unsigned: bool) -> (r:
    bool)
    ensures
        r == (outcome == PreVerifyOutcome::Extracted || (outcome == PreVerifyOutcome::Unsigned
            && allow_unsigned && form == ArtifactForm::Yaml)),
{
    match outcome {
        PreVerifyOutcome::Extracted => true,
        PreVerifyOutcome::Unsigned => allow_unsigned && form == ArtifactForm::Yaml,
        _ => false,
    }
}

/// Whether protobuf wire bytes pre-verify successfully.
pub fn can_pre_verify_proto(wire: &[u8]) -> (r: bool)
    ensures
        r == (proto_pre_verify(wire@).outcome == PreVerifyOutcome::Extracted),
{
    let pre = pre_verify_proto(wire);
    can_pre_verify_outcome(pre.outcome, ArtifactForm::Proto, false)
}

/// The next step of YAML pre-verification after the structural stage.
pub enum YamlPreVerifyStage {
    /// Pre-verification is complete.
    Done(PreVerifyResponse),
    /// The carrier must be parsed as a signature document; the payload is
    /// kept for the final response.
    NeedsSignatureDocument { payload: Vec<u8>, carrier: Vec<u8> },
}

/// The pre-verification outcome of a YAML decomposition outcome.
pub open spec fn pre_outcome_of(outcome: DecomposeOutcome, allow_unsigned: bool) -> PreVerifyOutcome {
    match outcome {
        DecomposeOutcome::Recovered => PreVerifyOutcome::Extracted,
        DecomposeOutcome::Unsigned => if allow_unsigned {
            PreVerifyOutcome::Unsigned
        } else {
            PreVerifyOutcome::StructuralFailure
        },
        DecomposeOutcome::MalformedAttemptedSigned => PreVerifyOutcome::StructuralFailure,
    }
}

fn preverify_outcome_from_decompose(outcome: DecomposeOutcome, allow_unsigned: bool) -> (r:
    PreVerifyOutcome)
    ensures
        r == pre_outcome_of(outcome, allow_unsigned),
{
    match outcome {
        DecomposeOutcome::Recovered => PreVerifyOutcome::Extracted,
        DecomposeOutcome::Unsigned => if allow_unsigned {
            PreVerifyOutcome::Unsigned
        } else {
            PreVerifyOutcome::StructuralFailure
        },
        DecomposeOutcome::MalformedAttemptedSigned => PreVerifyOutcome::StructuralFailure,
    }
}

/// The structural stage of YAML pre-verification.
pub open spec fn yaml_structure_stage(artifact: Seq<u8>, allow_unsigned: bool) -> Result<
    (Seq<u8>, Seq<u8>),
    PreVerifyOutcome,
> {
    match yaml_decompose_view(artifact) {
        DecomposeView::Shape(outcome, p, c) => if pre_outcome_of(outcome, allow_unsigned)
            != PreVerifyOutcome::Extracted {
            Err(pre_outcome_of(outcome, allow_unsigned))
        } else {
            match (p, c) {
                (Some(p), Some(c)) => if !valid_payload(p) {
                    Err(PreVerifyOutcome::StructuralFailure)
                } else {
                    Ok((p, c))
                },
                _ => Err(PreVerifyOutcome::StructuralFailure),
            }
        },
        DecomposeView::Invocation(_) => Err(PreVerifyOutcome::StructuralFailure),
    }
}

/// The structural stage of YAML pre-verification: decomposition and the
/// payload rules. Signature-document parsing comes next.
pub fn pre_verify_yaml_structure(artifact: &[u8], allow_unsigned: bool) -> (r: YamlPreVerifyStage)
    ensures
        match yaml_structure_stage(artifact@, allow_unsigned) {
            Err(o) => r matches YamlPreVerifyStage::Done(d) && pre_verify_view(d) == failed_view(
                o,
                ArtifactForm::Yaml,
            ),
            Ok((p, c)) => r matches YamlPreVerifyStage::NeedsSignatureDocument {
                payload,
                carrier,
            } && payload@ == p && carrier@ == c,
        },
{
    let resp = crate::transcription::decompose_yaml(artifact);
    let structural = match resp {
        DecomposeResponse::Shape(s) => s,
        DecomposeResponse::Invocation(_) => {
            return YamlPreVerifyStage::Done(
                bare_response(PreVerifyOutcome::StructuralFailure, ArtifactForm::Yaml),
            )
        },
    };
    let base = preverify_outcome_from_decompose(structural.outcome, allow_unsigned);
    if base != PreVerifyOutcome::Extracted {
        return YamlPreVerifyStage::Done(bare_response(base, ArtifactForm::Yaml));
    }
    let (payload, carrier) = match (structural.payload, structural.signature_carrier) {
        (Some(p), Some(c)) => (p, c),
        _ => {
            return YamlPreVerifyStage::Done(
                bare_response(PreVerifyOutcome::StructuralFailure, ArtifactForm::Yaml),
            )
        },
    };
    if validate_payload_stream(payload.as_slice()).is_err() {
        return YamlPreVerifyStage::Done(
            bare_response(PreVerifyOutcome::StructuralFailure, ArtifactForm::Yaml),
        );
    }
    YamlPreVerifyStage::NeedsSignatureDocument { payload, carrier }
}

/// Metadata extraction from a parsed YAML signature document.
pub open spec fn yaml_metadata(
    schema: Seq<char>,
    alg: Seq<char>,
    keyid: Option<Seq<char>>,
    signature: Seq<char>,
) -> Result<MetadataView, PreVerifyOutcome> {
    if schema != SCHEMA_V1ALPHA1@ {
        Err(PreVerifyOutcome::MetadataParseFailure)
    } else {
        match algorithm_of_yaml_chars(alg) {
            None => Err(PreVerifyOutcome::MetadataParseFailure),
            Some(a) => if (keyid matches Some(k) && !keyid_valid(k)) {
                Err(PreVerifyOutcome::MetadataParseFailure)
            } else {
                match base64_url_nopad_decoding(encode_utf8(signature)) {
                    None => Err(PreVerifyOutcome::MetadataParseFailure),
                    Some(octets) => Ok(
                        MetadataView {
                            algorithm: a,
                            keyid: match keyid {
                                Some(k) => Some(encode_utf8(k)),
                                None => None,
                            },
                            signature: octets,
                        },
                    ),
                }
            },
        }
    }
}

pub open spec fn doc_keyid(d: SignatureDocument) -> Option<Seq<char>> {
    match d.keyid {
        Some(k) => Some(k@),
        None => None,
    }
}

/// Metadata extraction from the signature-document parse result.
pub fn extract_yaml_metadata(parsed: Result<SignatureDocument, CoreError>) -> (r: Result<
    UnverifiedSignature,
    PreVerifyOutcome,
>)
    ensures
        match parsed {
            Err(_) => r == Err::<UnverifiedSignature, PreVerifyOutcome>(
                PreVerifyOutcome::MetadataParseFailure,
            ),
            Ok(d) => match yaml_metadata(d.schema@, d.alg@, doc_keyid(d), d.signature@) {
                Ok(m) => r matches Ok(u) && unverified_view(u) == m,
                Err(o) => r == Err::<UnverifiedSignature, PreVerifyOutcome>(o),
            },
        },
{
    let doc = match parsed {
        Ok(d) => d,
        Err(_) => return Err(PreVerifyOutcome::MetadataParseFailure),
    };
    if doc.validate_schema().is_err() {
        return Err(PreVerifyOutcome::MetadataParseFailure);
    }
    let alg = match AlgorithmId::from_yaml_str(doc.alg.as_str()) {
        Some(a) => a,
        None => return Err(PreVerifyOutcome::MetadataParseFailure),
    };
    match &doc.keyid {
        Some(k) => {
            if !keyid_is_valid(k.as_str()) {
                return Err(PreVerifyOutcome::MetadataParseFailure);
            }
        },
        None => {},
    }
    let octets = match base64_url_decode(doc.signature.as_str().as_bytes()) {
        Some(o) => o,
        None => return Err(PreVerifyOutcome::MetadataParseFailure),
    };
    Ok(UnverifiedSignature { algorithm: alg, keyid: doc.keyid, signature_octets: octets })
}

/// The final YAML pre-verification response from the kept payload and the
/// signature-document parse result.
pub fn finish_yaml_pre_verify(payload: Vec<u8>, parsed: Result<SignatureDocument, CoreError>) -> (r:
    PreVerifyResponse)
    ensures
        match parsed {
            Err(_) => pre_verify_view(r) == failed_view(
                PreVerifyOutcome::MetadataParseFailure,
                ArtifactForm::Yaml,
            ),
            Ok(d) => match yaml_metadata(d.schema@, d.alg@, doc_keyid(d), d.signature@) {
                Ok(m) => pre_verify_view(r) == (PreVerifyView {
                    outcome: PreVerifyOutcome::Extracted,
                    form: ArtifactForm::Yaml,
                    payload: Some(payload@),
                    metadata: Some(m),
                }),
                Err(o) => pre_verify_view(r) == failed_view(o, ArtifactForm::Yaml),
            },
        },
        r.parser_observations@.len() == 0,
{
    match extract_yaml_metadata(parsed) {
        Ok(sig) => PreVerifyResponse {
            outcome: PreVerifyOutcome::Extracted,
            form: ArtifactForm::Yaml,
            unverified_payload_bytes: Some(payload),
            unverified_signature: Some(sig),
            parser_observations: Vec::new(),
        },
        Err(o) => bare_response(o, ArtifactForm::Yaml),
    }
}

/// Each algorithm slot is gated by its own option alone. With its option
/// off, a well-sized signature for that slot is reported as signed with an
/// unsupported algorithm, whatever the keys, the payload, and the other
/// slot's option say; with its option on, the verdict does not depend on
/// the other slot's option.
pub proof fn lemma_algorithm_options_gate_their_own_slot(
    payload: Seq<u8>,
    sig: Seq<u8>,
    ed25519_key: Option<Seq<u8>>,
    p256_key: Option<Seq<u8>>,
    other: bool,
    other2: bool,
)
    requires
        sig.len() == 64,
    ensures
        extracted_verdict(payload, wire_value(AlgorithmId::Ed25519), sig, ed25519_key, p256_key, false, other)
            == Ok::<StateView, InvocationError>(StateView::SignedButAlgorithmUnsupported(AlgorithmId::Ed25519)),
        extracted_verdict(payload, wire_value(AlgorithmId::EcdsaP256Sha256), sig, ed25519_key, p256_key, other, false)
            == Ok::<StateView, InvocationError>(
            StateView::SignedButAlgorithmUnsupported(AlgorithmId::EcdsaP256Sha256),
        ),
        extracted_verdict(payload, wire_value(AlgorithmId::Ed25519), sig, ed25519_key, p256_key, true, other)
            == extracted_verdict(payload, wire_value(AlgorithmId::Ed25519), sig, ed25519_key, p256_key, true, other2),
        extracted_verdict(payload, wire_value(AlgorithmId::EcdsaP256Sha256), sig, ed25519_key, p256_key, other, true)
            == extracted_verdict(
            payload,
            wire_value(AlgorithmId::EcdsaP256Sha256),
            sig,
            ed25519_key,
            p256_key,
            other2,
            true,
        ),
{
}

/// A verified verdict reports exactly the payload it was given, under the
/// algorithm its wire number names, and only when that algorithm's option
/// is on, a key for it was supplied, and the signature verifies over the
/// payload under that key.
pub proof fn lemma_verified_needs_a_verifying_signature(
    payload: Seq<u8>,
    wire_alg: i32,
    sig: Seq<u8>,
    ed25519_key: Option<Seq<u8>>,
    p256_key: Option<Seq<u8>>,
    verify_ed: bool,
    verify_p256: bool,
    reported: Seq<u8>,
    alg: AlgorithmId,
)
    requires
        extracted_verdict(payload, wire_alg, sig, ed25519_key, p256_key, verify_ed, verify_p256)
            == Ok::<StateView, InvocationError>(StateView::Verified(reported, alg)),
    ensures
        reported == payload,
        wire_alg == wire_value(alg),
        sig.len() == 64,
        alg == AlgorithmId::Ed25519 ==> verify_ed && ed25519_key is Some && ed25519_verifies(
            ed25519_key->0,
            payload,
            sig,
        ),
        alg == AlgorithmId::EcdsaP256Sha256 ==> verify_p256 && p256_key is Some && p256_ecdsa_verifies(
            p256_key->0,
            payload,
            sig,
        ),
{
}

} // verus!
