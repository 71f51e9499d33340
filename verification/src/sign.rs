//! Signing: request validation, YAML payload normalization, output size
//! preflights, signature production, and emission of the YAML and protobuf
//! signed artifacts.

use vstd::prelude::*;
use vstd::slice::slice_to_vec;
use vstd::utf8::{encode_utf8, valid_utf8};
use crate::algorithm::{wire_value, yaml_alg_chars, AlgorithmId, SCHEMA_V1ALPHA1};
use crate::bytes::bytes_eq;
use crate::crypto::{
    ed25519_key_admissible, ed25519_public_key, ed25519_public_key_of, ed25519_sign, ed25519_signature_by,
    ed25519_signature_canonical, ed25519_verifies, p256_ecdsa_verifies, p256_public_key_of,
    p256_public_key, p256_sec1_key_accepted, p256_sign, p256_signature_by, p256_signature_well_formed,
};
use crate::verify::{
    opt_key, proto_pre_verify, state_after_pre_verify, ArtifactForm, InvocationError, PublicKeys,
    StateView, VerifierOptions,
};
use crate::round_trip::{
    admits_every_algorithm, lemma_signed_proto_verifies, lemma_signed_yaml_verifies,
    proto_artifact_verifies, yaml_artifact_verifies,
};
use crate::external::{
    base64_url_encode, base64_url_nopad_decoding, base64_url_nopad_encoding, chars_of,
};
use crate::payload::{bom_at_zero, payload_verdict, starts_with_bom, validate_payload_stream};
use crate::pb::{i32_varint, sig_wire, SigModel};
use crate::pb_error::{check_encoded_message_size, EncodeError, EncodeErrorKind, MAX_MESSAGE_BYTES};
use crate::proto_outer::{compose_proto_outer, outer_wire, outer_wire_len};
use crate::resource::{
    error_facts, exceeds, ArtifactResourceError, ArtifactResourceErrorKind, ArtifactResourceForm,
    ArtifactResourceLimits,
};
use crate::signature_doc::{
    canonical_carrier, lemma_encode_utf8_concat, lemma_encode_utf8_len_at_least, lemma_quoted_len,
    plain_scalar_round_trips, quoted, serialize_signature_document, SignatureDocument,
};
use crate::transcription::{
    compose, compose_result, ComposeOutcome, ComposeRequest, TranscriptionForm,
};
use crate::varint::{lemma_varint_bytes_len, varint_bytes, varint_len};

verus! {

/// Output forms.
#[derive(Debug, Clone, Copy, PartialEq, Eq, Hash, Structural)]
pub enum OutputForm {
    Yaml,
    Protobuf,
}

/// Request-shape failures before payload processing.
#[derive(Debug, Clone, Copy, PartialEq, Eq, Hash, Structural)]
pub enum SignInvocationError {
    InvalidOrUnsupportedAlgorithm,
    InvalidAlgorithmParameters,
    InvalidOrUnsupportedOutputForm,
    InvalidKeyid,
}

/// Sign-time failures after request-shape validation.
#[derive(Debug, Clone, PartialEq, Eq)]
pub enum SignError {
    InvalidPayloadBytes,
    PayloadLineTerminatorRefusal,
    InvalidOrUnsupportedAlgorithm,
    InvalidAlgorithmParameters,
    InvalidOrUnsupportedOutputForm,
    InvalidKeyid,
    KeyOperationFailure,
    YamlValidationFailure,
    YamlSerialize(String),
}

/// The abstract content of a sign-time failure.
pub enum SignFault {
    InvalidPayloadBytes,
    PayloadLineTerminatorRefusal,
    InvalidOrUnsupportedAlgorithm,
    InvalidAlgorithmParameters,
    InvalidOrUnsupportedOutputForm,
    InvalidKeyid,
    KeyOperationFailure,
    YamlValidationFailure,
    YamlSerialize(Seq<char>),
}

pub open spec fn sign_fault(e: SignError) -> SignFault {
    match e {
        SignError::InvalidPayloadBytes => SignFault::InvalidPayloadBytes,
        SignError::PayloadLineTerminatorRefusal => SignFault::PayloadLineTerminatorRefusal,
        SignError::InvalidOrUnsupportedAlgorithm => SignFault::InvalidOrUnsupportedAlgorithm,
        SignError::InvalidAlgorithmParameters => SignFault::InvalidAlgorithmParameters,
        SignError::InvalidOrUnsupportedOutputForm => SignFault::InvalidOrUnsupportedOutputForm,
        SignError::InvalidKeyid => SignFault::InvalidKeyid,
        SignError::KeyOperationFailure => SignFault::KeyOperationFailure,
        SignError::YamlValidationFailure => SignFault::YamlValidationFailure,
        SignError::YamlSerialize(s) => SignFault::YamlSerialize(s@),
    }
}

/// Successful signing output.
#[derive(Debug, Clone, PartialEq, Eq)]
pub struct SignSuccess {
    pub artifact: Vec<u8>,
    /// The signed payload when the signer appended one LF; empty otherwise.
    pub modified_payload: Vec<u8>,
}

/// Signing success, an invocation error, or a sign-time failure.
#[derive(Debug)]
pub enum SignOutcome {
    Success(SignSuccess),
    Invocation(SignInvocationError),
    Signer(SignError),
}

/// Signing keys for the supported algorithms, as secret key bytes.
#[derive(Clone)]
pub enum SigningKey {
    Ed25519(Vec<u8>),
    EcdsaP256Sha256(Vec<u8>),
}

impl SigningKey {
    /// The verification keys that hold this key's public key in the slot of
    /// its algorithm; `None` when the secret key bytes are not a key of that
    /// algorithm.
    pub fn verifying_keys(&self) -> (r: Option<PublicKeys>)
        ensures
            match *self {
                SigningKey::Ed25519(secret) => if secret@.len() == 32 {
                    r matches Some(k) && keys_for(*self, k) && k.p256 is None
                } else {
                    r is None
                },
                SigningKey::EcdsaP256Sha256(secret) => match p256_public_key_of(secret@) {
                    Some(pk) => r matches Some(k) && keys_for(*self, k) && k.ed25519 is None,
                    None => r is None,
                },
            },
    {
        match self {
            SigningKey::Ed25519(secret) => {
                if secret.len() != 32 {
                    return None;
                }
                Some(PublicKeys { ed25519: Some(ed25519_public_key(secret.as_slice())), p256: None })
            },
            SigningKey::EcdsaP256Sha256(secret) => match p256_public_key(secret.as_slice()) {
                Some(pk) => Some(PublicKeys { ed25519: None, p256: Some(pk) }),
                None => None,
            },
        }
    }
}

/// A signing request.
pub struct SignRequest<'a> {
    pub payload: &'a [u8],
    pub algorithm: AlgorithmId,
    pub key: &'a SigningKey,
    /// Optional lookup hint: 1 to 1024 UTF-8 octets without CR or LF.
    pub keyid: Option<&'a str>,
    pub append_missing_final_newline: bool,
    pub output_form: OutputForm,
    pub algorithm_parameters: &'a [u8],
}

/// Parameters of YAML-form signing.
pub struct SignYamlParams<'a> {
    pub payload: &'a [u8],
    pub algorithm: AlgorithmId,
    pub key: &'a SigningKey,
    pub keyid: Option<&'a str>,
    pub append_missing_final_newline: bool,
}

/// Parameters of protobuf-form signing.
pub struct SignProtoParams<'a> {
    pub payload: &'a [u8],
    pub algorithm: AlgorithmId,
    pub key: &'a SigningKey,
    pub keyid: Option<&'a str>,
    pub append_missing_final_newline: bool,
}

pub open spec fn opt_str<'a>(k: Option<&'a str>) -> Option<Seq<char>> {
    match k {
        Some(s) => Some(s@),
        None => None,
    }
}

/// Whether the key's kind matches the algorithm.
pub open spec fn key_matches(alg: AlgorithmId, key: SigningKey) -> bool {
    match (alg, key) {
        (AlgorithmId::Ed25519, SigningKey::Ed25519(_)) => true,
        (AlgorithmId::EcdsaP256Sha256, SigningKey::EcdsaP256Sha256(_)) => true,
        _ => false,
    }
}

/// The request-shape failure of a request, if any.
pub open spec fn shape_error(
    alg: AlgorithmId,
    key: SigningKey,
    keyid: Option<Seq<char>>,
    algorithm_parameters: Seq<u8>,
) -> Option<SignInvocationError> {
    if algorithm_parameters.len() > 0 {
        Some(SignInvocationError::InvalidAlgorithmParameters)
    } else if (keyid matches Some(k) && (encode_utf8(k).len() == 0 || encode_utf8(k).len() > 1024)) {
        Some(SignInvocationError::InvalidKeyid)
    } else if !key_matches(alg, key) {
        Some(SignInvocationError::InvalidOrUnsupportedAlgorithm)
    } else {
        None
    }
}

/// Whether the key identifier contains CR or LF.
pub open spec fn keyid_has_line_break(keyid: Option<Seq<char>>) -> bool {
    keyid matches Some(k) && (k.contains('\r') || k.contains('\n'))
}

pub open spec fn request_shape_error(req: SignRequest) -> Option<SignInvocationError> {
    shape_error(req.algorithm, *req.key, opt_str(req.keyid), req.algorithm_parameters@)
}

/// Validate the request shape: parameters, key-identifier length, and the
/// key's kind.
fn validate_invocation_shape(req: &SignRequest<'_>) -> (r: Result<(), SignInvocationError>)
    ensures
        match request_shape_error(*req) {
            Some(e) => r == Err::<(), SignInvocationError>(e),
            None => r is Ok,
        },
{
    if req.algorithm_parameters.len() > 0 {
        return Err(SignInvocationError::InvalidAlgorithmParameters);
    }
    match req.keyid {
        Some(k) => {
            let octets = k.as_bytes().len();
            if octets == 0 || octets > 1024 {
                return Err(SignInvocationError::InvalidKeyid);
            }
        },
        None => {},
    }
    match (req.algorithm, req.key) {
        (AlgorithmId::Ed25519, SigningKey::Ed25519(_)) => Ok(()),
        (AlgorithmId::EcdsaP256Sha256, SigningKey::EcdsaP256Sha256(_)) => Ok(()),
        _ => Err(SignInvocationError::InvalidOrUnsupportedAlgorithm),
    }
}

/// Reject a key identifier that contains CR or LF.
fn validate_keyid_content(req: &SignRequest<'_>) -> (r: Result<(), SignInvocationError>)
    ensures
        keyid_has_line_break(opt_str(req.keyid)) ==> r == Err::<(), SignInvocationError>(
            SignInvocationError::InvalidKeyid,
        ),
        !keyid_has_line_break(opt_str(req.keyid)) ==> r is Ok,
{
    match req.keyid {
        Some(k) => {
            let chars = chars_of(k);
            let mut i: usize = 0;
            while i < chars.len()
                invariant
                    i <= chars.len(),
                    chars@ == k@,
                    req.keyid == Some(k),
                    forall|j: int| 0 <= j < i ==> chars@[j] != '\r' && chars@[j] != '\n',
                decreases chars.len() - i,
            {
                if chars[i] == '\r' || chars[i] == '\n' {
                    proof {
                        assert(k@[i as int] == chars@[i as int]);
                        if chars@[i as int] == '\r' {
                            assert(k@.contains('\r'));
                        } else {
                            assert(k@.contains('\n'));
                        }
                    }
                    return Err(SignInvocationError::InvalidKeyid);
                }
                i = i + 1;
            }
            Ok(())
        },
        None => Ok(()),
    }
}

/// The payload that YAML signing signs: the payload rules are checked and,
/// when asked, one missing final LF is appended.
pub open spec fn normalized_yaml_payload(p: Seq<u8>, append: bool) -> Result<Seq<u8>, SignFault> {
    if !valid_utf8(p) || bom_at_zero(p) {
        Err(SignFault::InvalidPayloadBytes)
    } else if p.len() == 0 {
        Ok(Seq::empty())
    } else if p.last() == 0x0A {
        Ok(p)
    } else if append {
        Ok(p.push(0x0A))
    } else {
        Err(SignFault::PayloadLineTerminatorRefusal)
    }
}

/// Check and normalize a YAML payload.
pub fn normalize_yaml_payload(payload: &[u8], append_missing_final_newline: bool) -> (r: Result<
    Vec<u8>,
    SignError,
>)
    ensures
        match normalized_yaml_payload(payload@, append_missing_final_newline) {
            Ok(p) => r matches Ok(v) && v@ == p,
            Err(f) => r matches Err(e) && sign_fault(e) == f,
        },
{
    if !crate::bytes::is_valid_utf8(payload) {
        return Err(SignError::InvalidPayloadBytes);
    }
    if starts_with_bom(payload) {
        return Err(SignError::InvalidPayloadBytes);
    }
    if payload.len() == 0 {
        let v: Vec<u8> = Vec::new();
        assert(v@ =~= Seq::<u8>::empty());
        return Ok(v);
    }
    if payload[payload.len() - 1] == 0x0A {
        return Ok(slice_to_vec(payload));
    }
    if append_missing_final_newline {
        let mut v = slice_to_vec(payload);
        v.push(0x0A);
        return Ok(v);
    }
    Err(SignError::PayloadLineTerminatorRefusal)
}

/// The signature octets over `payload`.
pub open spec fn signature_octets(payload: Seq<u8>, alg: AlgorithmId, key: SigningKey) -> Result<
    Seq<u8>,
    SignFault,
> {
    match (alg, key) {
        (AlgorithmId::Ed25519, SigningKey::Ed25519(secret)) => if secret@.len() != 32 {
            Err(SignFault::KeyOperationFailure)
        } else {
            Ok(ed25519_signature_by(secret@, payload))
        },
        (AlgorithmId::EcdsaP256Sha256, SigningKey::EcdsaP256Sha256(secret)) => match p256_signature_by(
            secret@,
            payload,
        ) {
            Some(sig) => Ok(sig),
            None => Err(SignFault::KeyOperationFailure),
        },
        _ => Err(SignFault::InvalidOrUnsupportedAlgorithm),
    }
}

/// Whether `sig` is a signature over `message` that verifies under the
/// public key of `key`.
pub open spec fn signature_verifies_under(key: SigningKey, message: Seq<u8>, sig: Seq<u8>) -> bool {
    match key {
        SigningKey::Ed25519(secret) => ed25519_signature_canonical(sig) && ed25519_verifies(
            ed25519_public_key_of(secret@),
            message,
            sig,
        ),
        SigningKey::EcdsaP256Sha256(secret) => p256_signature_well_formed(sig) && (p256_public_key_of(
            secret@,
        ) matches Some(pk) && p256_sec1_key_accepted(pk) && p256_ecdsa_verifies(pk, message, sig)),
    }
}

/// Whether `keys` holds the public key of `key` in the slot of its
/// algorithm.
pub open spec fn keys_for(key: SigningKey, keys: PublicKeys) -> bool {
    match key {
        SigningKey::Ed25519(secret) => opt_key(keys.ed25519) == Some(ed25519_public_key_of(secret@))
            && ed25519_key_admissible(ed25519_public_key_of(secret@)),
        SigningKey::EcdsaP256Sha256(secret) => p256_public_key_of(secret@) matches Some(pk) && opt_key(
            keys.p256,
        ) == Some(pk),
    }
}

/// Sign `payload` with the key for `algorithm`.
fn sign_digest(payload: &[u8], algorithm: AlgorithmId, key: &SigningKey) -> (r: Result<
    Vec<u8>,
    SignError,
>)
    ensures
        match signature_octets(payload@, algorithm, *key) {
            Ok(s) => r matches Ok(v) && v@ == s,
            Err(f) => r matches Err(e) && sign_fault(e) == f,
        },
        r matches Ok(v) ==> v@.len() == 64 && signature_verifies_under(*key, payload@, v@),
{
    match (algorithm, key) {
        (AlgorithmId::Ed25519, SigningKey::Ed25519(secret)) => {
            if secret.len() != 32 {
                return Err(SignError::KeyOperationFailure);
            }
            Ok(ed25519_sign(secret.as_slice(), payload))
        },
        (AlgorithmId::EcdsaP256Sha256, SigningKey::EcdsaP256Sha256(secret)) => {
            match p256_sign(secret.as_slice(), payload) {
                Some(sig) => Ok(sig),
                None => Err(SignError::KeyOperationFailure),
            }
        },
        _ => Err(SignError::InvalidOrUnsupportedAlgorithm),
    }
}

/// The YAML signature carrier of a signature.
pub open spec fn yaml_signature_carrier(
    alg: AlgorithmId,
    keyid: Option<Seq<char>>,
    sig: Seq<u8>,
) -> Seq<char> {
    canonical_carrier(SCHEMA_V1ALPHA1@, yaml_alg_chars(alg), keyid, base64_url_nopad_encoding(sig))
}

/// The inner signature message of a signature.
pub open spec fn signature_message(alg: AlgorithmId, keyid: Option<Seq<char>>, sig: Seq<u8>) -> SigModel {
    SigModel {
        alg: wire_value(alg),
        keyid: match keyid {
            Some(k) => Some(encode_utf8(k)),
            None => None,
        },
        signature: sig,
        unknown: Seq::empty(),
    }
}

/// The diagnostic of a failed YAML composition.
pub open spec fn compose_failed_text() -> Seq<char> {
    "compose failed"@
}

/// The YAML signed artifact of a signature over `payload`.
pub open spec fn yaml_signed_artifact(
    payload: Seq<u8>,
    alg: AlgorithmId,
    keyid: Option<Seq<char>>,
    sig: Seq<u8>,
) -> Result<Seq<u8>, SignFault> {
    match compose_result(
        payload,
        encode_utf8(yaml_signature_carrier(alg, keyid, sig)),
        TranscriptionForm::Yaml,
    ) {
        Ok(w) => Ok(w),
        Err(_) => Err(SignFault::YamlSerialize(compose_failed_text())),
    }
}

/// The protobuf signed artifact of a signature over `payload`.
pub open spec fn proto_signed_artifact(
    payload: Seq<u8>,
    alg: AlgorithmId,
    keyid: Option<Seq<char>>,
    sig: Seq<u8>,
) -> Seq<u8> {
    outer_wire(payload, sig_wire(signature_message(alg, keyid, sig)))
}

/// Serialize the canonical YAML signature carrier.
fn serialize_yaml_signature_carrier(req: &SignRequest<'_>, sig_bytes: &[u8]) -> (r: Result<
    String,
    SignError,
>)
    requires
        sig_bytes@.len() == 64,
    ensures
        r matches Ok(s) && s@ == yaml_signature_carrier(req.algorithm, opt_str(req.keyid), sig_bytes@),
        signature_text_round_trips(sig_bytes@),
        signature_text_len_exact(sig_bytes@),
{
    let doc = SignatureDocument {
        schema: String::from_str(SCHEMA_V1ALPHA1),
        alg: String::from_str(req.algorithm.as_yaml_str()),
        keyid: match req.keyid {
            Some(k) => Some(String::from_str(k)),
            None => None,
        },
        signature: base64_url_encode(sig_bytes),
    };
    match serialize_signature_document(&doc) {
        Ok(body) => Ok(body),
        Err(e) => Err(SignError::YamlSerialize(e.message())),
    }
}

/// Compose the YAML signed artifact.
fn emit_yaml_artifact(payload: &[u8], req: &SignRequest<'_>, sig_bytes: &[u8]) -> (r: Result<
    Vec<u8>,
    SignError,
>)
    requires
        sig_bytes@.len() == 64,
    ensures
        match yaml_signed_artifact(payload@, req.algorithm, opt_str(req.keyid), sig_bytes@) {
            Ok(w) => r matches Ok(v) && v@ == w,
            Err(f) => r matches Err(e) && sign_fault(e) == f,
        },
        signature_text_round_trips(sig_bytes@),
        signature_text_len_exact(sig_bytes@),
{
    let body = match serialize_yaml_signature_carrier(req, sig_bytes) {
        Ok(b) => b,
        Err(e) => return Err(e),
    };
    match compose(
        &ComposeRequest {
            payload,
            signature_carrier: body.as_str().as_bytes(),
            form: TranscriptionForm::Yaml,
        },
    ) {
        ComposeOutcome::Success(s) => Ok(s.artifact),
        _ => Err(SignError::YamlSerialize(String::from_str("compose failed"))),
    }
}

/// Compose the YAML signed artifact after checking its exact size against
/// the output policy.
fn emit_yaml_artifact_with_resource_limits(
    payload: &[u8],
    req: &SignRequest<'_>,
    sig_bytes: &[u8],
    limits: &ArtifactResourceLimits,
) -> (r: Result<Result<Vec<u8>, SignError>, ArtifactResourceError>)
    requires
        sig_bytes@.len() == 64,
    ensures
        ({
            let n = payload@.len() + 4 + encode_utf8(
                yaml_signature_carrier(req.algorithm, opt_str(req.keyid), sig_bytes@),
            ).len();
            &&& n > usize::MAX ==> (r matches Err(e) && e@ == error_facts(
                ArtifactResourceErrorKind::SizeComputationOverflow,
                ArtifactResourceForm::Yaml,
                limits@,
                None,
            ))
            &&& n <= usize::MAX && exceeds(limits@, n as int) ==> (r matches Err(e) && e@
                == error_facts(
                ArtifactResourceErrorKind::OutputArtifactTooLarge,
                ArtifactResourceForm::Yaml,
                limits@,
                Some(n as usize),
            ))
            &&& n <= usize::MAX && !exceeds(limits@, n as int) ==> (r matches Ok(inner) && match yaml_signed_artifact(
                payload@,
                req.algorithm,
                opt_str(req.keyid),
                sig_bytes@,
            ) {
                Ok(w) => inner matches Ok(v) && v@ == w,
                Err(f) => inner matches Err(e) && sign_fault(e) == f,
            })
        }),
        signature_text_round_trips(sig_bytes@),
        signature_text_len_exact(sig_bytes@),
{
    let body = match serialize_yaml_signature_carrier(req, sig_bytes) {
        Ok(b) => b,
        Err(e) => return Ok(Err(e)),
    };
    let body_bytes = body.as_str().as_bytes();
    let encoded_size = match payload.len().checked_add(4) {
        Some(s) => s.checked_add(body_bytes.len()),
        None => None,
    };
    let encoded_size = match encoded_size {
        Some(s) => s,
        None => return Err(limits.size_computation_overflow(ArtifactResourceForm::Yaml)),
    };
    match limits.check_output_size(ArtifactResourceForm::Yaml, encoded_size) {
        Err(e) => return Err(e),
        Ok(_) => {},
    }
    match compose(
        &ComposeRequest { payload, signature_carrier: body_bytes, form: TranscriptionForm::Yaml },
    ) {
        ComposeOutcome::Success(s) => Ok(Ok(s.artifact)),
        _ => Ok(Err(SignError::YamlSerialize(String::from_str("compose failed")))),
    }
}

/// Encode the inner `YamlSigilSignature` carrier.
fn encode_inner_signature_carrier(
    algorithm: AlgorithmId,
    signature: Vec<u8>,
    keyid: Option<&str>,
) -> (r: Vec<u8>)
    ensures
        r@ == sig_wire(signature_message(algorithm, opt_str(keyid), signature@)),
{
    let mut message = crate::pb::YamlSigilSignature::new(algorithm, signature);
    message.set_keyid(
        match keyid {
            Some(k) => Some(String::from_str(k)),
            None => None,
        },
    );
    let mut out: Vec<u8> = Vec::new();
    message.write_wire(&mut out);
    assert(out@ =~= sig_wire(message@));
    assert(message@.unknown =~= Seq::<u8>::empty());
    out
}

/// The carrier bound: a signature message with a 64-octet signature and a
/// key identifier of at most 1024 octets is short.
pub(crate) proof fn lemma_signature_message_len(alg: AlgorithmId, keyid: Option<Seq<char>>, sig: Seq<u8>)
    requires
        sig.len() == 64,
        keyid matches Some(k) ==> encode_utf8(k).len() <= 1024,
    ensures
        sig_wire(signature_message(alg, keyid, sig)).len() <= 1200,
{
    let m = signature_message(alg, keyid, sig);
    lemma_varint_bytes_len(crate::pb::i32_varint(m.alg));
    crate::pb::lemma_i32_varint_round_trip(m.alg);
    lemma_varint_bytes_len(64);
    match m.keyid {
        Some(k) => {
            lemma_varint_bytes_len(k.len());
        },
        None => {},
    }
}

/// Compose the protobuf signed artifact.
fn emit_proto_artifact(payload: &[u8], req: &SignRequest<'_>, sig_bytes: &[u8]) -> (r: Vec<u8>)
    requires
        sig_bytes@.len() == 64,
        opt_str(req.keyid) matches Some(k) ==> encode_utf8(k).len() <= 1024,
        payload@.len() + 2048 <= usize::MAX,
    ensures
        r@ == proto_signed_artifact(payload@, req.algorithm, opt_str(req.keyid), sig_bytes@),
{
    let carrier = encode_inner_signature_carrier(req.algorithm, slice_to_vec(sig_bytes), req.keyid);
    proof {
        lemma_signature_message_len(req.algorithm, opt_str(req.keyid), sig_bytes@);
        lemma_varint_bytes_len(payload@.len());
        lemma_varint_bytes_len(carrier@.len());
    }
    compose_proto_outer(payload, carrier.as_slice())
}

/// The successful signing outcome: artifact and modified payload.
pub open spec fn signed_output(
    payload: Seq<u8>,
    alg: AlgorithmId,
    key: SigningKey,
    keyid: Option<Seq<char>>,
    append: bool,
    form: OutputForm,
) -> Result<(Seq<u8>, Seq<u8>), SignFault> {
    let normalized = match form {
        OutputForm::Yaml => normalized_yaml_payload(payload, append),
        OutputForm::Protobuf => Ok(payload),
    };
    match normalized {
        Err(f) => Err(f),
        Ok(signed) => {
            let modified = if signed == payload {
                Seq::<u8>::empty()
            } else {
                signed
            };
            match signature_octets(signed, alg, key) {
                Err(f) => Err(f),
                Ok(sig) => match form {
                    OutputForm::Yaml => match yaml_signed_artifact(signed, alg, keyid, sig) {
                        Ok(w) => Ok((w, modified)),
                        Err(f) => Err(f),
                    },
                    OutputForm::Protobuf => Ok((proto_signed_artifact(signed, alg, keyid, sig), modified)),
                },
            }
        },
    }
}

pub open spec fn request_output(req: SignRequest) -> Result<(Seq<u8>, Seq<u8>), SignFault> {
    signed_output(
        req.payload@,
        req.algorithm,
        *req.key,
        opt_str(req.keyid),
        req.append_missing_final_newline,
        req.output_form,
    )
}

/// Whether `r` reports the signing result `expected`.
pub open spec fn sign_outcome_is(r: SignOutcome, expected: Result<(Seq<u8>, Seq<u8>), SignFault>) -> bool {
    match r {
        SignOutcome::Success(s) => expected == Ok::<(Seq<u8>, Seq<u8>), SignFault>(
            (s.artifact@, s.modified_payload@),
        ),
        SignOutcome::Signer(e) => expected == Err::<(Seq<u8>, Seq<u8>), SignFault>(sign_fault(e)),
        SignOutcome::Invocation(_) => false,
    }
}

/// A normalized YAML payload satisfies the payload rules.
proof fn lemma_normalized_payload_valid(p: Seq<u8>, append: bool)
    ensures
        normalized_yaml_payload(p, append) matches Ok(s) ==> payload_verdict(s) is Ok,
{
    if valid_utf8(p) && !bom_at_zero(p) && p.len() > 0 && p.last() != 0x0A && append {
        let s = p.push(0x0A);
        let nl: Seq<u8> = seq![0x0Au8];
        assert(nl.subrange(0, 0) =~= Seq::<u8>::empty());
        assert(vstd::utf8::partial_valid_utf8(nl, 0));
        vstd::utf8::partial_valid_utf8_extend_ascii_block(nl, 0, 1);
        assert(nl.subrange(0, 1) =~= nl);
        vstd::utf8::valid_utf8_concat(p, nl);
        assert(p + nl =~= s);
        if p.len() >= 3 {
            assert(s[0] == p[0] && s[1] == p[1] && s[2] == p[2]);
        }
        assert(!bom_at_zero(s));
    }
}

/// Signing after the request shape was validated, without a policy.
fn sign_after_invocation_validation(req: &SignRequest<'_>) -> (r: SignOutcome)
    requires
        request_shape_error(*req) is None,
        req.payload@.len() + 4096 <= usize::MAX,
    ensures
        sign_outcome_is(r, request_output(*req)),
        signing_sound(*req),
{
    let payload = match req.output_form {
        OutputForm::Yaml => {
            let p = match normalize_yaml_payload(req.payload, req.append_missing_final_newline) {
                Ok(p) => p,
                Err(e) => return SignOutcome::Signer(e),
            };
            proof {
                lemma_normalized_payload_valid(req.payload@, req.append_missing_final_newline);
            }
            if validate_payload_stream(p.as_slice()).is_err() {
                return SignOutcome::Signer(SignError::InvalidPayloadBytes);
            }
            p
        },
        OutputForm::Protobuf => slice_to_vec(req.payload),
    };
    let modified_payload = if bytes_eq(req.payload, payload.as_slice()) {
        let v: Vec<u8> = Vec::new();
        assert(v@ =~= Seq::<u8>::empty());
        v
    } else {
        slice_to_vec(payload.as_slice())
    };
    let sig_bytes = match sign_digest(payload.as_slice(), req.algorithm, req.key) {
        Ok(b) => b,
        Err(e) => return SignOutcome::Signer(e),
    };
    let artifact = match req.output_form {
        OutputForm::Yaml => match emit_yaml_artifact(payload.as_slice(), req, sig_bytes.as_slice()) {
            Ok(a) => a,
            Err(e) => return SignOutcome::Signer(e),
        },
        OutputForm::Protobuf => emit_proto_artifact(payload.as_slice(), req, sig_bytes.as_slice()),
    };
    SignOutcome::Success(SignSuccess { artifact, modified_payload })
}


/// What signing a request yields: an invocation error, or the signing result.
pub open spec fn sign_is(r: SignOutcome, req: SignRequest) -> bool {
    match request_shape_error(req) {
        Some(e) => r matches SignOutcome::Invocation(x) && x == e,
        None => if keyid_has_line_break(opt_str(req.keyid)) {
            r matches SignOutcome::Invocation(x) && x == SignInvocationError::InvalidKeyid
        } else {
            sign_outcome_is(r, request_output(req))
        },
    }
}

/// Sign a payload and emit the signed artifact in the requested form.
pub fn sign(req: &SignRequest<'_>) -> (r: SignOutcome)
    requires
        req.payload@.len() + 4096 <= usize::MAX,
    ensures
        sign_is(r, *req),
        r is Success ==> signing_sound(*req),
{
    match validate_invocation_shape(req) {
        Err(e) => return SignOutcome::Invocation(e),
        Ok(()) => {},
    }
    match validate_keyid_content(req) {
        Err(e) => return SignOutcome::Invocation(e),
        Ok(()) => {},
    }
    sign_after_invocation_validation(req)
}

/// The length in octets of the YAML `alg` spelling of `alg`.
pub open spec fn yaml_alg_len(alg: AlgorithmId) -> nat {
    match alg {
        AlgorithmId::Ed25519 => 36,
        AlgorithmId::EcdsaP256Sha256 => 31,
    }
}

/// A lower bound on the YAML signed artifact of a request: the payload, a
/// projected LF, the marker, and the shortest canonical carrier (an
/// unquoted 86-character signature).
pub open spec fn yaml_signing_lower_bound(
    p: Seq<u8>,
    alg: AlgorithmId,
    keyid: Option<Seq<char>>,
    append: bool,
) -> nat {
    let projected_lf: nat = if p.len() > 0 && p.last() != 0x0A && append {
        1
    } else {
        0
    };
    let keyid_part: nat = match keyid {
        Some(k) => 7 + 2 + encode_utf8(k).len() + 1,
        None => 0,
    };
    p.len() + projected_lf + 4 + (8 + 27 + 1 + 5 + yaml_alg_len(alg) + 1) + keyid_part + (11
        + 86 + 1)
}

/// The YAML size preflight never overstates: the YAML signed artifact of a
/// 64-octet signature is at least as long as the lower bound that the
/// request gives before signing.
pub proof fn lemma_yaml_lower_bound_sound(
    p: Seq<u8>,
    alg: AlgorithmId,
    keyid: Option<Seq<char>>,
    append: bool,
    signed: Seq<u8>,
    sig: Seq<u8>,
)
    requires
        normalized_yaml_payload(p, append) == Ok::<Seq<u8>, SignFault>(signed),
        sig.len() == 64,
        signature_text_len_exact(sig),
    ensures
        yaml_signing_lower_bound(p, alg, keyid, append) <= signed.len() + 4 + encode_utf8(
            yaml_signature_carrier(alg, keyid, sig),
        ).len(),
{
    let text = base64_url_nopad_encoding(sig);
    assert(text.len() == 86);
    reveal_strlit("schema: ");
    reveal_strlit("YamlSigilSignature.v1alpha1");
    reveal_strlit("\nalg: ");
    reveal_strlit("\n");
    reveal_strlit("keyid: ");
    reveal_strlit("signature: ");
    reveal_strlit("ED25519_PUREEDDSA_RAW_RS64_CANONICAL");
    reveal_strlit("ECDSA_SECP256R1_SHA256_RAW_RS64");
    let a1 = "schema: "@;
    let a2 = SCHEMA_V1ALPHA1@;
    let a3 = "\nalg: "@;
    let a4 = yaml_alg_chars(alg);
    let a5 = "\n"@;
    let a6 = match keyid {
        Some(k) => "keyid: "@ + quoted(k) + "\n"@,
        None => Seq::<char>::empty(),
    };
    let a7 = "signature: "@;
    let a8 = if plain_scalar_round_trips(text) {
        text
    } else {
        quoted(text)
    };
    let a9 = "\n"@;
    assert(yaml_signature_carrier(alg, keyid, sig) == a1 + a2 + a3 + a4 + a5 + a6 + a7 + a8 + a9);
    lemma_encode_utf8_concat(a1 + a2 + a3 + a4 + a5 + a6 + a7 + a8, a9);
    lemma_encode_utf8_concat(a1 + a2 + a3 + a4 + a5 + a6 + a7, a8);
    lemma_encode_utf8_concat(a1 + a2 + a3 + a4 + a5 + a6, a7);
    lemma_encode_utf8_concat(a1 + a2 + a3 + a4 + a5, a6);
    lemma_encode_utf8_concat(a1 + a2 + a3 + a4, a5);
    lemma_encode_utf8_concat(a1 + a2 + a3, a4);
    lemma_encode_utf8_concat(a1 + a2, a3);
    lemma_encode_utf8_concat(a1, a2);
    lemma_encode_utf8_len_at_least(a1);
    lemma_encode_utf8_len_at_least(a2);
    lemma_encode_utf8_len_at_least(a3);
    lemma_encode_utf8_len_at_least(a4);
    lemma_encode_utf8_len_at_least(a5);
    lemma_encode_utf8_len_at_least(a7);
    lemma_encode_utf8_len_at_least(a9);
    lemma_encode_utf8_len_at_least(text);
    lemma_quoted_len(text);
    match keyid {
        Some(k) => {
            lemma_encode_utf8_concat("keyid: "@ + quoted(k), "\n"@);
            lemma_encode_utf8_concat("keyid: "@, quoted(k));
            lemma_encode_utf8_len_at_least("keyid: "@);
            lemma_encode_utf8_len_at_least("\n"@);
            lemma_quoted_len(k);
        },
        None => {
            assert(encode_utf8(a6) =~= Seq::<u8>::empty());
        },
    }
}

fn yaml_alg_len_exec(alg: AlgorithmId) -> (r: usize)
    ensures
        r == yaml_alg_len(alg),
{
    match alg {
        AlgorithmId::Ed25519 => 36,
        AlgorithmId::EcdsaP256Sha256 => 31,
    }
}

/// Check the lower bound of the YAML signed artifact against the policy.
pub fn checked_yaml_signing_lower_bound(req: &SignRequest<'_>, limits: &ArtifactResourceLimits) -> (r:
    Result<usize, ArtifactResourceError>)
    ensures
        ({
            let n = yaml_signing_lower_bound(
                req.payload@,
                req.algorithm,
                opt_str(req.keyid),
                req.append_missing_final_newline,
            );
            &&& n > usize::MAX ==> (r matches Err(e) && e@ == error_facts(
                ArtifactResourceErrorKind::SizeComputationOverflow,
                ArtifactResourceForm::Yaml,
                limits@,
                None,
            ))
            &&& n <= usize::MAX && exceeds(limits@, n as int) ==> (r matches Err(e) && e@
                == error_facts(
                ArtifactResourceErrorKind::OutputArtifactTooLarge,
                ArtifactResourceForm::Yaml,
                limits@,
                None,
            ))
            &&& n <= usize::MAX && !exceeds(limits@, n as int) ==> r == Ok::<
                usize,
                ArtifactResourceError,
            >(n as usize)
        }),
{
    let p = req.payload;
    let projected_lf: usize = if p.len() > 0 && p[p.len() - 1] != 0x0A
        && req.append_missing_final_newline {
        1
    } else {
        0
    };
    let mut carrier: usize = 8 + 27 + 1 + 5 + yaml_alg_len_exec(req.algorithm) + 1;
    match req.keyid {
        Some(k) => {
            carrier = match carrier.checked_add(10) {
                Some(c) => match c.checked_add(k.as_bytes().len()) {
                    Some(c) => c,
                    None => return Err(limits.size_computation_overflow(ArtifactResourceForm::Yaml)),
                },
                None => return Err(limits.size_computation_overflow(ArtifactResourceForm::Yaml)),
            };
        },
        None => {},
    }
    let carrier = match carrier.checked_add(98) {
        Some(c) => c,
        None => return Err(limits.size_computation_overflow(ArtifactResourceForm::Yaml)),
    };
    let minimum = match p.len().checked_add(projected_lf) {
        Some(m) => match m.checked_add(4) {
            Some(m) => m.checked_add(carrier),
            None => None,
        },
        None => None,
    };
    let minimum = match minimum {
        Some(m) => m,
        None => return Err(limits.size_computation_overflow(ArtifactResourceForm::Yaml)),
    };
    limits.check_output_size_lower_bound(ArtifactResourceForm::Yaml, minimum)
}

/// The exact inner carrier size of a protobuf signature: two bytes of
/// algorithm field, the key identifier field, and a 64-octet signature field.
pub open spec fn proto_signing_carrier_len(keyid_len: Option<nat>) -> nat {
    2 + match keyid_len {
        Some(k) => 1 + varint_bytes(k).len() + k,
        None => 0,
    } + (1 + varint_bytes(64).len() + 64)
}

/// The protobuf size projection is exact: the protobuf artifact of a
/// 64-octet signature is exactly as long as the projection from the
/// payload and key-identifier lengths.
pub proof fn lemma_proto_signing_projection_exact(
    payload: Seq<u8>,
    alg: AlgorithmId,
    keyid: Option<Seq<char>>,
    sig: Seq<u8>,
)
    requires
        sig.len() == 64,
    ensures
        proto_signed_artifact(payload, alg, keyid, sig).len() == outer_wire_len(
            payload.len(),
            proto_signing_carrier_len(
                match keyid {
                    Some(k) => Some(encode_utf8(k).len()),
                    None => None,
                },
            ),
        ),
{
    let m = signature_message(alg, keyid, sig);
    assert(i32_varint(m.alg) < 128);
    assert(varint_bytes(i32_varint(m.alg)).len() == 1);
    assert(varint_bytes(64).len() == 1);
}

fn checked_len_field_size(value_len: u64) -> (r: Option<u64>)
    ensures
        r matches Some(n) ==> n == 1 + varint_bytes(value_len as nat).len() + value_len,
        r is None ==> 1 + varint_bytes(value_len as nat).len() + value_len > u64::MAX,
{
    (1 + varint_len(value_len)).checked_add(value_len)
}

pub open spec fn opt_u64(k: Option<u64>) -> Option<nat> {
    match k {
        Some(v) => Some(v as nat),
        None => None,
    }
}

/// Exact protobuf signed-artifact size from the payload and key-identifier
/// lengths, checked against the policy and then the protobuf size ceiling.
pub fn checked_proto_signing_size_from_lengths(
    payload_len: u64,
    keyid_len: Option<u64>,
    limits: &ArtifactResourceLimits,
) -> (r: Result<Result<usize, EncodeError>, ArtifactResourceError>)
    ensures
        ({
            let n = outer_wire_len(payload_len as nat, proto_signing_carrier_len(opt_u64(keyid_len)));
            &&& n > usize::MAX ==> (r matches Err(e) && e@ == error_facts(
                ArtifactResourceErrorKind::SizeComputationOverflow,
                ArtifactResourceForm::Protobuf,
                limits@,
                None,
            ))
            &&& n <= usize::MAX && exceeds(limits@, n as int) ==> (r matches Err(e) && e@
                == error_facts(
                ArtifactResourceErrorKind::OutputArtifactTooLarge,
                ArtifactResourceForm::Protobuf,
                limits@,
                Some(n as usize),
            ))
            &&& n <= usize::MAX && !exceeds(limits@, n as int) && n > MAX_MESSAGE_BYTES ==> (r matches Ok(
                Err(e),
            ) && e@ == EncodeErrorKind::MessageTooLarge)
            &&& n <= usize::MAX && !exceeds(limits@, n as int) && n <= MAX_MESSAGE_BYTES ==> r
                == Ok::<Result<usize, EncodeError>, ArtifactResourceError>(
                Ok::<usize, EncodeError>(n as usize),
            )
        }),
{
    proof {
        lemma_varint_bytes_len(64);
    }
    let mut carrier_len: u64 = 2;
    match keyid_len {
        Some(k) => {
            let field = match checked_len_field_size(k) {
                Some(f) => f,
                None => return Err(limits.size_computation_overflow(ArtifactResourceForm::Protobuf)),
            };
            carrier_len = match carrier_len.checked_add(field) {
                Some(c) => c,
                None => return Err(limits.size_computation_overflow(ArtifactResourceForm::Protobuf)),
            };
        },
        None => {},
    }
    let signature_field = match checked_len_field_size(64) {
        Some(f) => f,
        None => return Err(limits.size_computation_overflow(ArtifactResourceForm::Protobuf)),
    };
    carrier_len = match carrier_len.checked_add(signature_field) {
        Some(c) => c,
        None => return Err(limits.size_computation_overflow(ArtifactResourceForm::Protobuf)),
    };
    let raw_size = match checked_len_field_size(payload_len) {
        Some(ps) => match checked_len_field_size(carrier_len) {
            Some(cs) => ps.checked_add(cs),
            None => None,
        },
        None => None,
    };
    let raw_size = match raw_size {
        Some(n) => n,
        None => return Err(limits.size_computation_overflow(ArtifactResourceForm::Protobuf)),
    };
    if raw_size > usize::MAX as u64 {
        return Err(limits.size_computation_overflow(ArtifactResourceForm::Protobuf));
    }
    let encoded_size = raw_size as usize;
    match limits.check_output_size(ArtifactResourceForm::Protobuf, encoded_size) {
        Err(e) => return Err(e),
        Ok(_) => {},
    }
    Ok(check_encoded_message_size(encoded_size))
}

/// Map a request-shape failure to the corresponding sign-time error.
pub fn map_invocation_to_sign_error(e: SignInvocationError) -> (r: SignError)
    ensures
        sign_fault(r) == match e {
            SignInvocationError::InvalidOrUnsupportedAlgorithm => SignFault::InvalidOrUnsupportedAlgorithm,
            SignInvocationError::InvalidAlgorithmParameters => SignFault::InvalidAlgorithmParameters,
            SignInvocationError::InvalidOrUnsupportedOutputForm => SignFault::InvalidOrUnsupportedOutputForm,
            SignInvocationError::InvalidKeyid => SignFault::InvalidKeyid,
        },
{
    match e {
        SignInvocationError::InvalidOrUnsupportedAlgorithm => SignError::InvalidOrUnsupportedAlgorithm,
        SignInvocationError::InvalidAlgorithmParameters => SignError::InvalidAlgorithmParameters,
        SignInvocationError::InvalidOrUnsupportedOutputForm => SignError::InvalidOrUnsupportedOutputForm,
        SignInvocationError::InvalidKeyid => SignError::InvalidKeyid,
    }
}

/// The invocation error of a request as a sign-time error, if any.
pub open spec fn invocation_fault(req: SignRequest) -> Option<SignFault> {
    match request_shape_error(req) {
        Some(e) => Some(invocation_to_fault(e)),
        None => if keyid_has_line_break(opt_str(req.keyid)) {
            Some(SignFault::InvalidKeyid)
        } else {
            None
        },
    }
}

pub open spec fn invocation_to_fault(e: SignInvocationError) -> SignFault {
    match e {
        SignInvocationError::InvalidOrUnsupportedAlgorithm => SignFault::InvalidOrUnsupportedAlgorithm,
        SignInvocationError::InvalidAlgorithmParameters => SignFault::InvalidAlgorithmParameters,
        SignInvocationError::InvalidOrUnsupportedOutputForm => SignFault::InvalidOrUnsupportedOutputForm,
        SignInvocationError::InvalidKeyid => SignFault::InvalidKeyid,
    }
}

/// The result of the convenience signing functions.
pub open spec fn artifact_result_is(r: Result<Vec<u8>, SignError>, req: SignRequest) -> bool {
    match invocation_fault(req) {
        Some(f) => r matches Err(e) && sign_fault(e) == f,
        None => match request_output(req) {
            Ok((w, _)) => r matches Ok(v) && v@ == w,
            Err(f) => r matches Err(e) && sign_fault(e) == f,
        },
    }
}

fn outcome_to_artifact(outcome: SignOutcome) -> (r: Result<Vec<u8>, SignError>)
    ensures
        match outcome {
            SignOutcome::Success(s) => r matches Ok(v) && v@ == s.artifact@,
            SignOutcome::Invocation(e) => r matches Err(x) && sign_fault(x) == invocation_to_fault(e),
            SignOutcome::Signer(e) => r == Err::<Vec<u8>, SignError>(e),
        },
{
    match outcome {
        SignOutcome::Success(s) => Ok(s.artifact),
        SignOutcome::Invocation(e) => Err(map_invocation_to_sign_error(e)),
        SignOutcome::Signer(e) => Err(e),
    }
}

/// Sign and emit a YAML signed artifact.
pub fn sign_yaml(params: &SignYamlParams<'_>) -> (r: Result<Vec<u8>, SignError>)
    requires
        params.payload@.len() + 4096 <= usize::MAX,
    ensures
        artifact_result_is(
            r,
            SignRequest {
                payload: params.payload,
                algorithm: params.algorithm,
                key: params.key,
                keyid: params.keyid,
                append_missing_final_newline: params.append_missing_final_newline,
                output_form: OutputForm::Yaml,
                algorithm_parameters: &[],
            },
        ),
        r matches Ok(w) ==> (signing_material(yaml_params_request(*params)) matches Ok((signed, sig))
            && yaml_artifact_verifies(
            w@,
            signed,
            params.algorithm,
            opt_str(params.keyid),
            *params.key,
            sig,
        )),
{
    let req = SignRequest {
        payload: params.payload,
        algorithm: params.algorithm,
        key: params.key,
        keyid: params.keyid,
        append_missing_final_newline: params.append_missing_final_newline,
        output_form: OutputForm::Yaml,
        algorithm_parameters: &[],
    };
    let outcome = sign(&req);
    if let SignOutcome::Success(s) = &outcome {
        let artifact_len: usize = s.artifact.len();
        proof {
            assert(s.artifact@.len() == artifact_len);
            lemma_signed_yaml_request_verifies(req, s.artifact@);
        }
    }
    outcome_to_artifact(outcome)
}

/// The YAML artifact of a valid, signable request decomposes into the
/// signed payload and the written carrier, whose fields, read back, verify
/// under the public key of its signing key.
proof fn lemma_signed_yaml_request_verifies(req: SignRequest, w: Seq<u8>)
    requires
        req.output_form == OutputForm::Yaml,
        request_shape_error(req) is None,
        !keyid_has_line_break(opt_str(req.keyid)),
        signing_sound(req),
        request_output(req) matches Ok((x, _)) && x == w,
        w.len() <= usize::MAX,
    ensures
        signing_material(req) matches Ok((signed, sig)) && yaml_artifact_verifies(
            w,
            signed,
            req.algorithm,
            opt_str(req.keyid),
            *req.key,
            sig,
        ),
{
    let (signed, sig) = signing_material(req)->Ok_0;
    lemma_normalized_payload_valid(req.payload@, req.append_missing_final_newline);
    lemma_signed_yaml_verifies(signed, req.algorithm, *req.key, opt_str(req.keyid), sig);
}

/// Sign and emit a protobuf signed artifact.
pub fn sign_proto(params: &SignProtoParams<'_>) -> (r: Result<Vec<u8>, SignError>)
    requires
        params.payload@.len() + 4096 <= usize::MAX,
    ensures
        artifact_result_is(
            r,
            SignRequest {
                payload: params.payload,
                algorithm: params.algorithm,
                key: params.key,
                keyid: params.keyid,
                append_missing_final_newline: params.append_missing_final_newline,
                output_form: OutputForm::Protobuf,
                algorithm_parameters: &[],
            },
        ),
        r matches Ok(w) ==> proto_artifact_verifies(w@, params.payload@, params.algorithm, *params.key),
{
    let req = SignRequest {
        payload: params.payload,
        algorithm: params.algorithm,
        key: params.key,
        keyid: params.keyid,
        append_missing_final_newline: params.append_missing_final_newline,
        output_form: OutputForm::Protobuf,
        algorithm_parameters: &[],
    };
    let outcome = sign(&req);
    proof {
        if outcome is Success {
            lemma_signed_request_verifies(req);
        }
    }
    outcome_to_artifact(outcome)
}

/// The protobuf artifact of a valid, signable request verifies under the
/// public key of its signing key.
proof fn lemma_signed_request_verifies(req: SignRequest)
    requires
        req.output_form == OutputForm::Protobuf,
        req.payload@.len() <= usize::MAX,
        request_shape_error(req) is None,
        !keyid_has_line_break(opt_str(req.keyid)),
        signing_sound(req),
        request_output(req) is Ok,
    ensures
        request_output(req) matches Ok((w, _)) && proto_artifact_verifies(
            w,
            req.payload@,
            req.algorithm,
            *req.key,
        ),
{
    let (signed, sig) = signing_material(req)->Ok_0;
    assert(signed == req.payload@);
    let w = proto_signed_artifact(signed, req.algorithm, opt_str(req.keyid), sig);
    assert(request_output(req) matches Ok((x, _)) && x == w);
    assert forall|keys: PublicKeys, options: VerifierOptions|
        keys_for(*req.key, keys) && admits_every_algorithm(options) implies #[trigger] state_after_pre_verify(
        proto_pre_verify(w),
        ArtifactForm::Proto,
        keys,
        options,
    ) == Ok::<StateView, InvocationError>(StateView::Verified(req.payload@, req.algorithm)) by {
        lemma_signed_proto_verifies(
            signed,
            req.algorithm,
            *req.key,
            opt_str(req.keyid),
            sig,
            keys,
            options,
        );
    }
}


/// The payload that is signed and its signature octets.
pub open spec fn signing_material(req: SignRequest) -> Result<(Seq<u8>, Seq<u8>), SignFault> {
    let normalized = match req.output_form {
        OutputForm::Yaml => normalized_yaml_payload(req.payload@, req.append_missing_final_newline),
        OutputForm::Protobuf => Ok(req.payload@),
    };
    match normalized {
        Err(f) => Err(f),
        Ok(signed) => match signature_octets(signed, req.algorithm, *req.key) {
            Err(f) => Err(f),
            Ok(sig) => Ok((signed, sig)),
        },
    }
}

/// Whether the signature that a request signs with verifies under the
/// public key of its signing key.
pub open spec fn signing_sound(req: SignRequest) -> bool {
    match signing_material(req) {
        Ok((signed, sig)) => signature_verifies_under(*req.key, signed, sig) && (req.output_form
            == OutputForm::Yaml ==> signature_text_round_trips(sig) && signature_text_len_exact(sig)),
        Err(_) => true,
    }
}

/// Whether the base64url text of `sig` has the unpadded encoded length:
/// four characters for every three bytes, two or three for a trailing one
/// or two.
pub open spec fn signature_text_len_exact(sig: Seq<u8>) -> bool {
    base64_url_nopad_encoding(sig).len() == (4 * sig.len() + 2) / 3
}

/// Whether the base64url text of `sig` decodes back to `sig`.
pub open spec fn signature_text_round_trips(sig: Seq<u8>) -> bool {
    base64_url_nopad_decoding(encode_utf8(base64_url_nopad_encoding(sig))) == Some(sig)
}

/// The exact size of the YAML signed artifact for a signed payload and
/// signature.
pub open spec fn yaml_output_len(req: SignRequest, signed: Seq<u8>, sig: Seq<u8>) -> nat {
    signed.len() + 4 + encode_utf8(yaml_signature_carrier(req.algorithm, opt_str(req.keyid), sig)).len()
}

/// Whether `r` reports a resource rejection with the given facts.
pub open spec fn rejected_with<T>(
    r: Result<T, ArtifactResourceError>,
    kind: ArtifactResourceErrorKind,
    form: ArtifactResourceForm,
    limits: Option<usize>,
    observed: Option<usize>,
) -> bool {
    r matches Err(e) && e@ == error_facts(kind, form, limits, observed)
}

/// Signing after validation, with the exact YAML output size checked
/// against the policy before the artifact is composed.
fn sign_after_validation_with_limits(req: &SignRequest<'_>, limits: &ArtifactResourceLimits) -> (r:
    Result<SignOutcome, ArtifactResourceError>)
    requires
        request_shape_error(*req) is None,
        req.payload@.len() + 4096 <= usize::MAX,
    ensures
        match signing_material(*req) {
            Err(f) => r matches Ok(SignOutcome::Signer(e)) && sign_fault(e) == f,
            Ok((signed, sig)) => match req.output_form {
                OutputForm::Protobuf => r matches Ok(o) && sign_outcome_is(o, request_output(*req)),
                OutputForm::Yaml => {
                    let n = yaml_output_len(*req, signed, sig);
                    &&& n > usize::MAX ==> rejected_with(
                        r,
                        ArtifactResourceErrorKind::SizeComputationOverflow,
                        ArtifactResourceForm::Yaml,
                        limits@,
                        None,
                    )
                    &&& n <= usize::MAX && exceeds(limits@, n as int) ==> rejected_with(
                        r,
                        ArtifactResourceErrorKind::OutputArtifactTooLarge,
                        ArtifactResourceForm::Yaml,
                        limits@,
                        Some(n as usize),
                    )
                    &&& n <= usize::MAX && !exceeds(limits@, n as int) ==> (r matches Ok(o)
                        && sign_outcome_is(o, request_output(*req)))
                },
            },
        },
        signing_sound(*req),
{
    let payload = match req.output_form {
        OutputForm::Yaml => {
            let p = match normalize_yaml_payload(req.payload, req.append_missing_final_newline) {
                Ok(p) => p,
                Err(e) => return Ok(SignOutcome::Signer(e)),
            };
            proof {
                lemma_normalized_payload_valid(req.payload@, req.append_missing_final_newline);
            }
            if validate_payload_stream(p.as_slice()).is_err() {
                return Ok(SignOutcome::Signer(SignError::InvalidPayloadBytes));
            }
            p
        },
        OutputForm::Protobuf => slice_to_vec(req.payload),
    };
    let modified_payload = if bytes_eq(req.payload, payload.as_slice()) {
        let v: Vec<u8> = Vec::new();
        assert(v@ =~= Seq::<u8>::empty());
        v
    } else {
        slice_to_vec(payload.as_slice())
    };
    let sig_bytes = match sign_digest(payload.as_slice(), req.algorithm, req.key) {
        Ok(b) => b,
        Err(e) => return Ok(SignOutcome::Signer(e)),
    };
    let artifact = match req.output_form {
        OutputForm::Yaml => match emit_yaml_artifact_with_resource_limits(
            payload.as_slice(),
            req,
            sig_bytes.as_slice(),
            limits,
        ) {
            Err(e) => return Err(e),
            Ok(Ok(a)) => a,
            Ok(Err(e)) => return Ok(SignOutcome::Signer(e)),
        },
        OutputForm::Protobuf => emit_proto_artifact(payload.as_slice(), req, sig_bytes.as_slice()),
    };
    Ok(SignOutcome::Success(SignSuccess { artifact, modified_payload }))
}

/// The exact protobuf signed-artifact size of a request.
pub open spec fn proto_signing_len(req: SignRequest) -> nat {
    outer_wire_len(
        req.payload@.len(),
        proto_signing_carrier_len(
            match opt_str(req.keyid) {
                Some(k) => Some(encode_utf8(k).len()),
                None => None,
            },
        ),
    )
}

/// What resource-aware signing yields for a request.
pub open spec fn resource_sign_is(
    r: Result<Result<SignOutcome, EncodeError>, ArtifactResourceError>,
    req: SignRequest,
    limits: Option<usize>,
) -> bool {
    match request_shape_error(req) {
        Some(e) => r matches Ok(Ok(SignOutcome::Invocation(x))) && x == e,
        None => {
            let after_preflight = if keyid_has_line_break(opt_str(req.keyid)) {
                r matches Ok(Ok(SignOutcome::Invocation(x))) && x == SignInvocationError::InvalidKeyid
            } else {
                match signing_material(req) {
                    Err(f) => r matches Ok(Ok(SignOutcome::Signer(e))) && sign_fault(e) == f,
                    Ok((signed, sig)) => match req.output_form {
                        OutputForm::Protobuf => r matches Ok(Ok(o)) && sign_outcome_is(
                            o,
                            request_output(req),
                        ),
                        OutputForm::Yaml => {
                            let n = yaml_output_len(req, signed, sig);
                            &&& n > usize::MAX ==> (r matches Err(e) && e@ == error_facts(
                                ArtifactResourceErrorKind::SizeComputationOverflow,
                                ArtifactResourceForm::Yaml,
                                limits,
                                None,
                            ))
                            &&& n <= usize::MAX && exceeds(limits, n as int) ==> (r matches Err(e)
                                && e@ == error_facts(
                                ArtifactResourceErrorKind::OutputArtifactTooLarge,
                                ArtifactResourceForm::Yaml,
                                limits,
                                Some(n as usize),
                            ))
                            &&& n <= usize::MAX && !exceeds(limits, n as int) ==> (r matches Ok(
                                Ok(o),
                            ) && sign_outcome_is(o, request_output(req)))
                        },
                    },
                }
            };
            match req.output_form {
                OutputForm::Yaml => {
                    let lb = yaml_signing_lower_bound(
                        req.payload@,
                        req.algorithm,
                        opt_str(req.keyid),
                        req.append_missing_final_newline,
                    );
                    &&& lb > usize::MAX ==> (r matches Err(e) && e@ == error_facts(
                        ArtifactResourceErrorKind::SizeComputationOverflow,
                        ArtifactResourceForm::Yaml,
                        limits,
                        None,
                    ))
                    &&& lb <= usize::MAX && exceeds(limits, lb as int) ==> (r matches Err(e) && e@
                        == error_facts(
                        ArtifactResourceErrorKind::OutputArtifactTooLarge,
                        ArtifactResourceForm::Yaml,
                        limits,
                        None,
                    ))
                    &&& lb <= usize::MAX && !exceeds(limits, lb as int) ==> after_preflight
                },
                OutputForm::Protobuf => {
                    let n = proto_signing_len(req);
                    &&& n > usize::MAX ==> (r matches Err(e) && e@ == error_facts(
                        ArtifactResourceErrorKind::SizeComputationOverflow,
                        ArtifactResourceForm::Protobuf,
                        limits,
                        None,
                    ))
                    &&& n <= usize::MAX && exceeds(limits, n as int) ==> (r matches Err(e) && e@
                        == error_facts(
                        ArtifactResourceErrorKind::OutputArtifactTooLarge,
                        ArtifactResourceForm::Protobuf,
                        limits,
                        Some(n as usize),
                    ))
                    &&& n <= usize::MAX && !exceeds(limits, n as int) && n > MAX_MESSAGE_BYTES ==> (r matches Ok(
                        Err(e),
                    ) && e@ == EncodeErrorKind::MessageTooLarge)
                    &&& n <= usize::MAX && !exceeds(limits, n as int) && n <= MAX_MESSAGE_BYTES
                        ==> after_preflight
                },
            }
        },
    }
}

/// Sign after applying an explicit output policy. Request-shape
/// validation and the size preflight precede payload inspection.
pub fn sign_with_resource_limits(req: &SignRequest<'_>, limits: &ArtifactResourceLimits) -> (r:
    Result<Result<SignOutcome, EncodeError>, ArtifactResourceError>)
    requires
        req.payload@.len() + 4096 <= usize::MAX,
    ensures
        resource_sign_is(r, *req, limits@),
        r matches Ok(Ok(SignOutcome::Success(_))) ==> signing_sound(*req),
        r matches Ok(Ok(SignOutcome::Success(s))) ==> (req.output_form == OutputForm::Protobuf
            ==> s.artifact@.len() == proto_signing_len(*req)),
        r matches Ok(Ok(SignOutcome::Success(s))) ==> (req.output_form == OutputForm::Yaml
            ==> s.artifact@.len() >= yaml_signing_lower_bound(
            req.payload@,
            req.algorithm,
            opt_str(req.keyid),
            req.append_missing_final_newline,
        )),
{
    match validate_invocation_shape(req) {
        Err(e) => return Ok(Ok(SignOutcome::Invocation(e))),
        Ok(()) => {},
    }
    match req.output_form {
        OutputForm::Yaml => {
            match checked_yaml_signing_lower_bound(req, limits) {
                Err(e) => return Err(e),
                Ok(_) => {},
            }
        },
        OutputForm::Protobuf => {
            let keyid_len: Option<u64> = match req.keyid {
                Some(k) => Some(k.as_bytes().len() as u64),
                None => None,
            };
            match checked_proto_signing_size_from_lengths(req.payload.len() as u64, keyid_len, limits) {
                Err(e) => return Err(e),
                Ok(Err(e)) => return Ok(Err(e)),
                Ok(Ok(_)) => {},
            }
        },
    }
    match validate_keyid_content(req) {
        Err(e) => return Ok(Ok(SignOutcome::Invocation(e))),
        Ok(()) => {},
    }
    let r = match sign_after_validation_with_limits(req, limits) {
        Err(e) => Err(e),
        Ok(o) => Ok(Ok(o)),
    };
    proof {
        if req.output_form == OutputForm::Protobuf && signing_material(*req) is Ok {
            let (signed, sig) = signing_material(*req)->Ok_0;
            if sig.len() == 64 {
                lemma_proto_signing_projection_exact(signed, req.algorithm, opt_str(req.keyid), sig);
            }
        }
        if req.output_form == OutputForm::Yaml && signing_material(*req) is Ok {
            let (signed, sig) = signing_material(*req)->Ok_0;
            if sig.len() == 64 && signature_text_len_exact(sig) {
                lemma_yaml_lower_bound_sound(
                    req.payload@,
                    req.algorithm,
                    opt_str(req.keyid),
                    req.append_missing_final_newline,
                    signed,
                    sig,
                );
            }
        }
    }
    r
}


/// What a signing outcome delivers to the convenience functions: the
/// artifact bytes or the sign-time error.
pub open spec fn outcome_artifact(o: SignOutcome) -> Result<Seq<u8>, SignFault> {
    match o {
        SignOutcome::Success(s) => Ok(s.artifact@),
        SignOutcome::Invocation(e) => Err(invocation_to_fault(e)),
        SignOutcome::Signer(e) => Err(sign_fault(e)),
    }
}

/// Whether `r` carries the artifact or error of the signing outcome `o`.
pub open spec fn carries_artifact(r: Result<Vec<u8>, SignError>, o: SignOutcome) -> bool {
    match r {
        Ok(v) => outcome_artifact(o) == Ok::<Seq<u8>, SignFault>(v@),
        Err(e) => outcome_artifact(o) == Err::<Seq<u8>, SignFault>(sign_fault(e)),
    }
}

/// Whether the YAML convenience result `r` carries the resource-aware
/// signing result `o`.
pub open spec fn yaml_resource_result_carries(
    r: Result<Result<Vec<u8>, SignError>, ArtifactResourceError>,
    o: Result<Result<SignOutcome, EncodeError>, ArtifactResourceError>,
) -> bool {
    match o {
        Err(e) => r == Err::<Result<Vec<u8>, SignError>, ArtifactResourceError>(e),
        Ok(Ok(oc)) => r matches Ok(inner) && carries_artifact(inner, oc),
        Ok(Err(_)) => false,
    }
}

/// Whether the protobuf convenience result `r` carries the resource-aware
/// signing result `o`.
pub open spec fn proto_resource_result_carries(
    r: Result<Result<Result<Vec<u8>, SignError>, EncodeError>, ArtifactResourceError>,
    o: Result<Result<SignOutcome, EncodeError>, ArtifactResourceError>,
) -> bool {
    match o {
        Err(e) => r == Err::<Result<Result<Vec<u8>, SignError>, EncodeError>, ArtifactResourceError>(e),
        Ok(Err(e)) => r == Ok::<Result<Result<Vec<u8>, SignError>, EncodeError>, ArtifactResourceError>(Err(e)),
        Ok(Ok(oc)) => r matches Ok(Ok(inner)) && carries_artifact(inner, oc),
    }
}

/// The signing request that YAML-form parameters stand for.
pub open spec fn yaml_params_request<'a>(p: SignYamlParams<'a>) -> SignRequest<'a> {
    SignRequest {
        payload: p.payload,
        algorithm: p.algorithm,
        key: p.key,
        keyid: p.keyid,
        append_missing_final_newline: p.append_missing_final_newline,
        output_form: OutputForm::Yaml,
        algorithm_parameters: &[],
    }
}

/// The signing request that protobuf-form parameters stand for.
pub open spec fn proto_params_request<'a>(p: SignProtoParams<'a>) -> SignRequest<'a> {
    SignRequest {
        payload: p.payload,
        algorithm: p.algorithm,
        key: p.key,
        keyid: p.keyid,
        append_missing_final_newline: p.append_missing_final_newline,
        output_form: OutputForm::Protobuf,
        algorithm_parameters: &[],
    }
}

fn outcome_to_carried(outcome: SignOutcome) -> (r: Result<Vec<u8>, SignError>)
    ensures
        carries_artifact(r, outcome),
{
    outcome_to_artifact(outcome)
}

/// Sign with YAML output after applying an explicit output policy.
pub fn sign_yaml_with_resource_limits(params: &SignYamlParams<'_>, limits: &ArtifactResourceLimits) -> (r:
    Result<Result<Vec<u8>, SignError>, ArtifactResourceError>)
    requires
        params.payload@.len() + 4096 <= usize::MAX,
    ensures
        exists|o: Result<Result<SignOutcome, EncodeError>, ArtifactResourceError>|
            #[trigger] resource_sign_is(o, yaml_params_request(*params), limits@)
                && yaml_resource_result_carries(r, o),
{
    let req = SignRequest {
        payload: params.payload,
        algorithm: params.algorithm,
        key: params.key,
        keyid: params.keyid,
        append_missing_final_newline: params.append_missing_final_newline,
        output_form: OutputForm::Yaml,
        algorithm_parameters: &[],
    };
    let o = sign_with_resource_limits(&req, limits);
    let ghost og = o;
    let r = match o {
        Err(e) => Err(e),
        Ok(Ok(outcome)) => Ok(outcome_to_carried(outcome)),
        Ok(Err(_)) => {
            assert(false);
            Ok(Err(SignError::InvalidOrUnsupportedOutputForm))
        },
    };
    assert(resource_sign_is(og, req, limits@) && yaml_resource_result_carries(r, og));
    r
}

/// Sign with protobuf output after applying an explicit output policy.
pub fn sign_proto_with_resource_limits(params: &SignProtoParams<'_>, limits: &ArtifactResourceLimits) -> (r:
    Result<Result<Result<Vec<u8>, SignError>, EncodeError>, ArtifactResourceError>)
    requires
        params.payload@.len() + 4096 <= usize::MAX,
    ensures
        exists|o: Result<Result<SignOutcome, EncodeError>, ArtifactResourceError>|
            #[trigger] resource_sign_is(o, proto_params_request(*params), limits@)
                && proto_resource_result_carries(r, o),
        r matches Ok(Ok(Ok(w))) ==> proto_artifact_verifies(
            w@,
            params.payload@,
            params.algorithm,
            *params.key,
        ),
{
    let req = SignRequest {
        payload: params.payload,
        algorithm: params.algorithm,
        key: params.key,
        keyid: params.keyid,
        append_missing_final_newline: params.append_missing_final_newline,
        output_form: OutputForm::Protobuf,
        algorithm_parameters: &[],
    };
    let o = sign_with_resource_limits(&req, limits);
    let ghost og = o;
    proof {
        if og matches Ok(Ok(SignOutcome::Success(_))) {
            lemma_signed_request_verifies(req);
        }
    }
    let r = match o {
        Err(e) => Err(e),
        Ok(Err(e)) => Ok(Err(e)),
        Ok(Ok(outcome)) => Ok(Ok(outcome_to_carried(outcome))),
    };
    assert(resource_sign_is(og, req, limits@) && proto_resource_result_carries(r, og));
    r
}

} // verus!
