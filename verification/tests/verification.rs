use p256::ecdsa::signature::{Signer, Verifier};
use std::cell::Cell;
use std::collections::BTreeMap;
use std::rc::Rc;

use curve25519_dalek::constants::{ED25519_BASEPOINT_POINT, EIGHT_TORSION};
use curve25519_dalek::edwards::CompressedEdwardsY;
use curve25519_dalek::scalar::Scalar;
use curve25519_dalek::traits::IsIdentity;
use sha2::{Digest, Sha512};
use yaml_sigil::algorithm::AlgorithmId;
use yaml_sigil::crypto::{
    ecdsa_p256_signature_is_well_formed, ed25519_signature_is_canonical, ed25519_verifying_key_is_admissible,
    provider_public_key_is_admissible, resolve_ed25519_verifying_key, resolve_p256_verifying_key,
    verify_ecdsa_p256_sha256, verify_ed25519, EcdsaVerifyError,
};
use yaml_sigil::error::CoreError;
use yaml_sigil::provider::{
    ed25519_mixed_a_message, ed25519_mixed_a_public_key, ed25519_mixed_a_signature, ed25519_mixed_r_message,
    ed25519_mixed_r_public_key, ed25519_mixed_r_signature, p256_qualification_high_signature,
    p256_qualification_low_signature, p256_qualification_message, p256_qualification_public_key,
    rfc8032_test_1_public_key, rfc8032_test_1_signature, verify_from_pre_verify_with_provider,
    verify_from_pre_verify_with_unqualified_provider, ProviderBindFailure, ProviderKeyBindingErrorKind,
    ProviderPublicKeys, ProviderQualificationErrorKind, ProviderQualificationStatus,
    ProviderVerificationOutcome, ProviderVerifier, ProviderVerifierFactory, UnqualifiedProviderPublicKeys,
    VerificationProviderBuilder,
};
use yaml_sigil::provider_signing::{ProviderSigningKeyBuilder, ProviderSigningKeyErrorKind};
use yaml_sigil::provider_input::{
    verify_with_provider, verify_with_provider_and_metadata, verify_with_provider_and_resource_limits,
    verify_with_unqualified_provider, verify_with_unqualified_provider_and_metadata_and_resource_limits,
};
use yaml_sigil::resource::{ArtifactResourceErrorKind, ArtifactResourceForm, ArtifactResourceLimits};
use yaml_sigil::sign::{
    sign_proto, sign_yaml, SignError, SignProtoParams, SignYamlParams, SigningKey,
};
use yaml_sigil::signature_doc::SignatureDocument;
use yaml_sigil::transcode::{
    proto_wire_to_signed_yaml_stream, TranscodeError,
};
use yaml_sigil::verify::{
    pre_verify_proto_with_resource_limits, verify_extracted_signature, verify_from_pre_verify,
    verify_from_pre_verify_yaml, verify_proto, verify_proto_with_resource_limits, ArtifactForm, InvocationError,
    PreVerifyOutcome, PreVerifyResponse, PublicKeys, UnverifiedSignature, VerifierOptions, VerifierState,
};
use yaml_sigil::verify_input::{
    can_pre_verify_with_resource_limits, pre_verify_with_resource_limits, pre_verify_yaml,
    pre_verify_yaml_with_resource_limits, verify_with_metadata_and_resource_limits, verify_with_resource_limits,
    verify_yaml, verify_yaml_with_resource_limits, SignatureDocumentParser,
};

// ---- shared helpers ----

fn finite(maximum: usize) -> ArtifactResourceLimits {
    ArtifactResourceLimits::unbounded().with_max_artifact_bytes(maximum)
}

/// Parses a carrier as a plain YAML mapping of strings.
struct MapParser;

impl SignatureDocumentParser for MapParser {
    fn parse_signature_document(&self, carrier: &[u8]) -> Result<SignatureDocument, CoreError> {
        let text = std::str::from_utf8(carrier).map_err(|_| CoreError::InvalidUtf8)?;
        let map: BTreeMap<String, String> =
            noyalib::from_str(text).map_err(|e| CoreError::SignatureYaml(e.to_string()))?;
        let field = |name: &str| map.get(name).cloned().ok_or_else(|| CoreError::SignatureYaml(name.into()));
        Ok(SignatureDocument {
            schema: field("schema")?,
            alg: field("alg")?,
            keyid: map.get("keyid").cloned(),
            signature: field("signature")?,
        })
    }
}

fn no_keys() -> PublicKeys {
    PublicKeys { ed25519: None, p256: None }
}

fn ed25519_public(seed: u8) -> Vec<u8> {
    ed25519_dalek::SigningKey::from_bytes(&[seed; 32]).verifying_key().to_bytes().to_vec()
}

fn p256_public(seed: u8) -> Vec<u8> {
    p256::ecdsa::SigningKey::from_slice(&[seed; 32])
        .unwrap()
        .verifying_key()
        .to_encoded_point(false)
        .as_bytes()
        .to_vec()
}

fn keys_ed25519(seed: u8) -> PublicKeys {
    PublicKeys { ed25519: Some(ed25519_public(seed)), p256: None }
}

fn keys_p256(seed: u8) -> PublicKeys {
    PublicKeys { ed25519: None, p256: Some(p256_public(seed)) }
}

fn keys_both(ed_seed: u8, p_seed: u8) -> PublicKeys {
    PublicKeys { ed25519: Some(ed25519_public(ed_seed)), p256: Some(p256_public(p_seed)) }
}

fn ed25519_challenge(r_bytes: &[u8; 32], a_bytes: &[u8; 32], payload: &[u8]) -> Scalar {
    let mut hasher = Sha512::new();
    hasher.update(r_bytes);
    hasher.update(a_bytes);
    hasher.update(payload);
    let mut wide = [0u8; 64];
    wide.copy_from_slice(&hasher.finalize());
    Scalar::from_bytes_mod_order_wide(&wide)
}

fn verify_ed25519_cofactored(public_key: &[u8], message: &[u8], signature: &[u8]) -> bool {
    let Ok(public_key): Result<[u8; 32], _> = public_key.try_into() else {
        return false;
    };
    let Some(public_point) = CompressedEdwardsY(public_key).decompress() else {
        return false;
    };
    if signature.len() != 64 {
        return false;
    }
    let r_bytes: [u8; 32] = signature[..32].try_into().unwrap();
    let Some(r) = CompressedEdwardsY(r_bytes).decompress() else {
        return false;
    };
    let s_bytes: [u8; 32] = signature[32..].try_into().unwrap();
    let Some(s) = Option::<Scalar>::from(Scalar::from_canonical_bytes(s_bytes)) else {
        return false;
    };
    let challenge = ed25519_challenge(&r_bytes, &public_key, message);
    (s * ED25519_BASEPOINT_POINT - r - challenge * public_point).mul_by_cofactor().is_identity()
}

fn hex(s: &str) -> Vec<u8> {
    let cleaned: String = s.chars().filter(|c| !c.is_ascii_whitespace()).collect();
    assert!(cleaned.len() % 2 == 0, "odd-length hex");
    (0..cleaned.len()).step_by(2).map(|i| u8::from_str_radix(&cleaned[i..i + 2], 16).expect("valid hex")).collect()
}

const ED25519_L_LE: [u8; 32] = [
    0xED, 0xD3, 0xF5, 0x5C, 0x1A, 0x63, 0x12, 0x58, 0xD6, 0x9C, 0xF7, 0xA2, 0xDE, 0xF9, 0xDE, 0x14, 0x00, 0x00,
    0x00, 0x00, 0x00, 0x00, 0x00, 0x00, 0x00, 0x00, 0x00, 0x00, 0x00, 0x00, 0x00, 0x10,
];

const RFC8032_T1_SIG_HEX: &str = "e5564300c360ac729086e2cc806e828a\
                                  84877f1eb8e5d974d873e065224901555f\
                                  b8821590a33bacc61e39701cf9b46bd25b\
                                  f5f0595bbe24655141438e7a100b";

// ---- cryptographic checks ----

fn signature_with_permitted_non_prime_order_r(payload: &[u8]) -> (Vec<u8>, [u8; 64]) {
    let secret = Scalar::from(7u64);
    let public_point = secret * ED25519_BASEPOINT_POINT;
    let public_bytes = public_point.compress().to_bytes();

    let nonce = Scalar::from(11u64);
    let r_point = nonce * ED25519_BASEPOINT_POINT + EIGHT_TORSION[1];
    assert!(!r_point.is_torsion_free());
    let r_bytes = r_point.compress().to_bytes();
    let challenge = ed25519_challenge(&r_bytes, &public_bytes, payload);
    let s_bytes = (nonce + challenge * secret).to_bytes();

    let mut signature = [0u8; 64];
    signature[..32].copy_from_slice(&r_bytes);
    signature[32..].copy_from_slice(&s_bytes);
    (public_bytes.to_vec(), signature)
}

fn assert_malformed_signature_state(signature: &[u8]) {
    let keys = keys_ed25519(9);
    assert_eq!(
        verify_extracted_signature(b"payload\n", 1, signature, &keys, &VerifierOptions::default()),
        Ok(VerifierState::MalformedAttemptedSigned)
    );
}

#[test]
fn ed25519_accepts_permitted_non_prime_order_r() {
    let payload = b"cofactored equation\n";
    let (verifying_key, signature) = signature_with_permitted_non_prime_order_r(payload);

    assert!(ed25519_signature_is_canonical(&signature));
    assert!(verify_ed25519(&verifying_key, payload, &signature).is_ok());
    assert!(verify_ed25519(&verifying_key, b"different payload\n", &signature).is_err());

    let keys = PublicKeys { ed25519: Some(verifying_key), p256: None };
    assert!(matches!(
        verify_extracted_signature(payload, 1, &signature, &keys, &VerifierOptions::default()),
        Ok(VerifierState::Verified { .. })
    ));
    assert_eq!(
        verify_extracted_signature(b"different payload\n", 1, &signature, &keys, &VerifierOptions::default()),
        Ok(VerifierState::SignedButFailedVerification)
    );
}

#[test]
fn ed25519_key_resolution_enforces_canonical_field_encoding() {
    let mut noncanonical = [0xFF; 32];
    noncanonical[0] = 0xF0;
    noncanonical[31] = 0x7F;
    let typed_key = ed25519_dalek::VerifyingKey::from_bytes(&noncanonical).expect("typed key construction");
    assert!(!typed_key.is_weak());
    assert!(!ed25519_verifying_key_is_admissible(&noncanonical));
    assert!(resolve_ed25519_verifying_key(&noncanonical).is_err());

    let mut canonical = [0u8; 32];
    canonical[0] = 3;
    assert!(resolve_ed25519_verifying_key(&canonical).is_ok());
}

#[test]
fn ed25519_key_resolution_accepts_non_small_mixed_order_point() {
    let point = ED25519_BASEPOINT_POINT + EIGHT_TORSION[1];
    assert!(!point.is_small_order());
    assert!(!point.is_torsion_free());
    let bytes = point.compress().to_bytes();

    assert!(ed25519_verifying_key_is_admissible(&bytes));
    assert_eq!(resolve_ed25519_verifying_key(&bytes), Ok(bytes.to_vec()));
}

#[test]
fn ed25519_verification_rechecks_typed_key_admissibility() {
    let mut noncanonical = [0xFF; 32];
    noncanonical[0] = 0xF0;
    noncanonical[31] = 0x7F;
    let keys = PublicKeys { ed25519: Some(noncanonical.to_vec()), p256: None };

    assert_eq!(
        verify_extracted_signature(b"payload\n", 1, &[0u8; 64], &keys, &VerifierOptions::default()),
        Err(InvocationError::KeyResolutionFailure)
    );
}

#[test]
fn ecdsa_accepts_raw_rs64_and_classifies_failures() {
    let sk = p256::ecdsa::SigningKey::random(&mut rand_core::OsRng);
    let vk = sk.verifying_key().to_encoded_point(false).as_bytes().to_vec();
    let msg = b"payload line\n";
    let sig: p256::ecdsa::Signature = sk.sign(msg);
    assert!(verify_ecdsa_p256_sha256(&vk, msg, &sig.to_bytes()[..]).is_ok());
    assert_eq!(
        verify_ecdsa_p256_sha256(&vk, msg, sig.to_der().as_bytes()),
        Err(EcdsaVerifyError::MalformedSignature),
        "DER must be malformed at the wire layer"
    );
    assert_eq!(
        verify_ecdsa_p256_sha256(&vk, b"altered payload\n", &sig.to_bytes()[..]),
        Err(EcdsaVerifyError::EquationFailure),
        "a structurally valid signature over another payload must fail the equation"
    );
    assert!(ecdsa_p256_signature_is_well_formed(&sig.to_bytes()[..]));
}

#[test]
fn ed25519_canonical_accepts_rfc8032_test1_signature() {
    let sig = hex(RFC8032_T1_SIG_HEX);
    assert_eq!(sig.len(), 64);
    assert!(ed25519_signature_is_canonical(&sig));
}

#[test]
fn ed25519_canonical_rejects_wrong_length_inputs() {
    assert!(!ed25519_signature_is_canonical(&[]));
    assert!(!ed25519_signature_is_canonical(&[0u8; 63]));
    assert!(!ed25519_signature_is_canonical(&[0u8; 65]));
}

#[test]
fn ed25519_canonical_rejects_noncanonical_r() {
    let mut sig = vec![0xFFu8; 32];
    sig.extend_from_slice(&hex(RFC8032_T1_SIG_HEX)[32..]);
    assert_eq!(sig.len(), 64);
    assert!(!ed25519_signature_is_canonical(&sig));
}

#[test]
fn ed25519_canonical_rejects_undecodable_r() {
    let undecodable_r = (0u8..=u8::MAX)
        .find_map(|low_byte| {
            let mut candidate = [0u8; 32];
            candidate[0] = low_byte;
            CompressedEdwardsY(candidate).decompress().is_none().then_some(candidate)
        })
        .expect("an undecodable canonical-field candidate");
    let mut sig = undecodable_r.to_vec();
    sig.extend_from_slice(&[0u8; 32]);

    assert!(!ed25519_signature_is_canonical(&sig));
    assert_malformed_signature_state(&sig);
}

#[test]
fn ed25519_canonical_rejects_negative_zero_r() {
    let mut negative_zero = [0u8; 32];
    negative_zero[0] = 1;
    negative_zero[31] = 0x80;
    let mut sig = negative_zero.to_vec();
    sig.extend_from_slice(&[0u8; 32]);

    assert!(!ed25519_signature_is_canonical(&sig));
    assert_malformed_signature_state(&sig);
}

#[test]
fn ed25519_canonical_rejects_s_equals_l() {
    let mut sig = hex(RFC8032_T1_SIG_HEX)[..32].to_vec();
    sig.extend_from_slice(&ED25519_L_LE);
    assert_eq!(sig.len(), 64);
    assert!(!ed25519_signature_is_canonical(&sig));
    assert_malformed_signature_state(&sig);
}

#[test]
fn ed25519_canonical_rejects_s_equals_l_plus_one() {
    let mut s_plus_one = ED25519_L_LE;
    s_plus_one[0] = s_plus_one[0].wrapping_add(1);
    assert_ne!(s_plus_one[0], 0x00, "L+1 should not carry into byte 1");
    let mut sig = hex(RFC8032_T1_SIG_HEX)[..32].to_vec();
    sig.extend_from_slice(&s_plus_one);
    assert_eq!(sig.len(), 64);
    assert!(!ed25519_signature_is_canonical(&sig));
    assert_malformed_signature_state(&sig);
}

#[test]
fn ed25519_canonical_accepts_s_equals_l_minus_one() {
    let mut s_minus_one = ED25519_L_LE;
    s_minus_one[0] = s_minus_one[0].wrapping_sub(1);
    let mut sig = hex(RFC8032_T1_SIG_HEX)[..32].to_vec();
    sig.extend_from_slice(&s_minus_one);
    assert_eq!(sig.len(), 64);
    assert!(ed25519_signature_is_canonical(&sig));
}

#[test]
fn p256_key_resolution_requires_the_uncompressed_encoding() {
    let uncompressed = p256_public(7);
    assert_eq!(resolve_p256_verifying_key(&uncompressed), Ok(uncompressed.clone()));
    let compressed = p256::ecdsa::SigningKey::from_slice(&[7; 32])
        .unwrap()
        .verifying_key()
        .to_encoded_point(true)
        .as_bytes()
        .to_vec();
    assert_eq!(resolve_p256_verifying_key(&compressed), Err(InvocationError::KeyResolutionFailure));
    assert!(provider_public_key_is_admissible(AlgorithmId::EcdsaP256Sha256, &uncompressed));
    assert!(!provider_public_key_is_admissible(AlgorithmId::Ed25519, &uncompressed));
}

// ---- verification entry points ----

#[test]
fn input_resource_check_precedes_invalid_options_and_malformed_bytes() {
    let options = VerifierOptions { algorithm_parameters: vec![1], ..VerifierOptions::default() };
    let error =
        verify_with_resource_limits(&[0xff, 0xff], ArtifactForm::Proto, &no_keys(), options, &finite(1), &MapParser)
            .unwrap_err();
    assert_eq!(error.kind(), ArtifactResourceErrorKind::InputArtifactTooLarge);
    assert_eq!(error.artifact_form(), Some(ArtifactResourceForm::Protobuf));
    assert_eq!(error.observed_or_projected_artifact_bytes(), Some(2));

    let metadata_error = verify_with_metadata_and_resource_limits(
        &[0xff, 0xff],
        ArtifactForm::Yaml,
        &no_keys(),
        VerifierOptions { algorithm_parameters: vec![1], ..VerifierOptions::default() },
        true,
        &finite(1),
        &MapParser,
    )
    .unwrap_err();
    assert_eq!(metadata_error.kind(), ArtifactResourceErrorKind::InputArtifactTooLarge);
    assert_eq!(metadata_error.artifact_form(), Some(ArtifactResourceForm::Yaml));
}

#[test]
fn all_structural_entry_points_use_the_original_input_boundary() {
    let input = [0xff, 0xfe];
    let limits = finite(1);
    assert!(pre_verify_with_resource_limits(&input, ArtifactForm::Yaml, false, true, &limits, &MapParser).is_err());
    assert!(pre_verify_yaml_with_resource_limits(&input, false, &limits, &MapParser).is_err());
    assert!(pre_verify_proto_with_resource_limits(&input, &limits).is_err());
    assert!(verify_yaml_with_resource_limits(&input, &no_keys(), VerifierOptions::default(), &limits, &MapParser)
        .is_err());
    assert!(can_pre_verify_with_resource_limits(&input, ArtifactForm::Proto, false, &limits, &MapParser).is_err());
}

#[test]
fn protobuf_input_rejection_precedes_all_characterized_wire_shapes() {
    let inputs = [
        vec![0xff, 0xff],
        vec![0x0a, 0x80],
        vec![0x00, 0x00],
        vec![0x0f, 0x00],
        vec![0x80; 11],
        vec![0x50, 0x01],
        vec![0x53, 0x08, 0x01, 0x54],
        vec![0x0a, 0x01, b'a', 0x0a, 0x01, b'b'],
    ];

    for input in inputs {
        let limits = finite(1);
        let verify_error =
            verify_proto_with_resource_limits(&input, &no_keys(), VerifierOptions::default(), &limits).unwrap_err();
        let pre_verify_error = pre_verify_proto_with_resource_limits(&input, &limits).unwrap_err();
        let can_pre_verify_error =
            can_pre_verify_with_resource_limits(&input, ArtifactForm::Proto, false, &limits, &MapParser).unwrap_err();

        for error in [verify_error, pre_verify_error, can_pre_verify_error] {
            assert_eq!(error.kind(), ArtifactResourceErrorKind::InputArtifactTooLarge);
            assert_eq!(error.artifact_form(), Some(ArtifactResourceForm::Protobuf));
            assert_eq!(error.observed_or_projected_artifact_bytes(), Some(input.len()));
        }
    }
}

#[test]
fn bounded_pre_verify_handoff_does_not_recheck_an_encoded_artifact() {
    let signing_key = SigningKey::Ed25519(vec![44; 32]);
    let artifact = sign_yaml(&SignYamlParams {
        payload: b"handoff: true\n",
        algorithm: AlgorithmId::Ed25519,
        key: &signing_key,
        keyid: None,
        append_missing_final_newline: false,
    })
    .unwrap();
    let limits = finite(artifact.len());
    let pre = pre_verify_yaml_with_resource_limits(&artifact, false, &limits, &MapParser).unwrap();
    assert_eq!(pre.outcome, PreVerifyOutcome::Extracted);

    let keys = keys_ed25519(44);
    assert!(matches!(
        verify_from_pre_verify(&pre, &keys, VerifierOptions::default()).unwrap(),
        VerifierState::Verified { .. }
    ));
}

#[test]
fn default_p256_missing_key_precedence_is_unchanged() {
    assert_eq!(
        verify_extracted_signature(b"payload", 2, &[0; 64], &no_keys(), &VerifierOptions::default()),
        Err(InvocationError::KeyResolutionFailure)
    );
}

#[test]
fn unsigned_yaml_is_malformed_for_verify_and_unsigned_for_pre_verify() {
    assert_eq!(
        verify_yaml(b"a: b\n", &no_keys(), VerifierOptions::default(), &MapParser),
        Ok(VerifierState::MalformedAttemptedSigned)
    );
    assert_eq!(pre_verify_yaml(b"a: b\n", true, &MapParser).outcome, PreVerifyOutcome::Unsigned);
    assert_eq!(pre_verify_yaml(b"a: b\n", false, &MapParser).outcome, PreVerifyOutcome::StructuralFailure);
    assert_eq!(
        verify_yaml(b"a: b\n---\nnot: a signature\n", &no_keys(), VerifierOptions::default(), &MapParser),
        Ok(VerifierState::MalformedAttemptedSigned)
    );
    let options = VerifierOptions { algorithm_parameters: vec![0], ..VerifierOptions::default() };
    assert_eq!(
        verify_yaml(b"a: b\n", &no_keys(), options, &MapParser),
        Err(InvocationError::InvalidAlgorithmParameters)
    );
}

// ---- end-to-end signing and verification ----

const PAYLOAD_ED: &[u8] = b"e2e-buildtime-keys: ed25519 payload\n";
const PAYLOAD_P256: &[u8] = b"e2e-buildtime-keys: p256 payload\n";

fn ed25519_signing_key(index: u8) -> SigningKey {
    SigningKey::Ed25519(vec![0x10 + index; 32])
}

fn p256_signing_key(index: u8) -> SigningKey {
    SigningKey::EcdsaP256Sha256(vec![0x20 + index; 32])
}

fn ed_keys(index: u8) -> PublicKeys {
    ed25519_signing_key(index).verifying_keys().unwrap()
}

fn p_keys(index: u8) -> PublicKeys {
    p256_signing_key(index).verifying_keys().unwrap()
}

fn signed_yaml_stream_to_proto_wire(yaml: &[u8]) -> Result<Vec<u8>, TranscodeError> {
    yaml_sigil::transcode::signed_yaml_stream_to_proto_wire(yaml, &MapParser)
        .expect("the composed artifact length fits in usize")
}

#[test]
fn e2e_ed25519_yaml_and_proto_pass_and_fail_wrong_peer_key() {
    let sk0 = ed25519_signing_key(0);
    let artifact = sign_yaml(&SignYamlParams {
        payload: PAYLOAD_ED,
        algorithm: AlgorithmId::Ed25519,
        key: &sk0,
        keyid: Some("kid-e2e"),
        append_missing_final_newline: false,
    })
    .unwrap();

    assert!(matches!(
        verify_yaml(&artifact, &ed_keys(0), VerifierOptions::default(), &MapParser).unwrap(),
        VerifierState::Verified { .. }
    ));
    assert_eq!(
        verify_yaml(&artifact, &ed_keys(1), VerifierOptions::default(), &MapParser).unwrap(),
        VerifierState::SignedButFailedVerification
    );

    let wire = sign_proto(&SignProtoParams {
        payload: PAYLOAD_ED,
        algorithm: AlgorithmId::Ed25519,
        key: &sk0,
        keyid: None,
        append_missing_final_newline: false,
    })
    .unwrap();

    assert!(matches!(
        verify_proto(&wire, &ed_keys(0), VerifierOptions::default()).unwrap(),
        VerifierState::Verified { .. }
    ));
    assert_eq!(
        verify_proto(&wire, &ed_keys(1), VerifierOptions::default()).unwrap(),
        VerifierState::SignedButFailedVerification
    );

    let pre = pre_verify_yaml(&artifact, false, &MapParser);
    assert_eq!(pre.outcome, PreVerifyOutcome::Extracted);
    assert!(matches!(
        verify_from_pre_verify_yaml(&pre, &ed_keys(0), VerifierOptions::default()).unwrap(),
        VerifierState::Verified { .. }
    ));
    assert_eq!(
        verify_from_pre_verify_yaml(&pre, &ed_keys(1), VerifierOptions::default()).unwrap(),
        VerifierState::SignedButFailedVerification
    );
}

#[test]
fn e2e_p256_yaml_and_proto_pass_and_fail_wrong_peer_key() {
    let sk0 = p256_signing_key(0);
    let artifact = sign_yaml(&SignYamlParams {
        payload: PAYLOAD_P256,
        algorithm: AlgorithmId::EcdsaP256Sha256,
        key: &sk0,
        keyid: None,
        append_missing_final_newline: false,
    })
    .unwrap();

    assert!(matches!(
        verify_yaml(&artifact, &p_keys(0), VerifierOptions::default(), &MapParser).unwrap(),
        VerifierState::Verified { .. }
    ));
    assert_eq!(
        verify_yaml(&artifact, &p_keys(1), VerifierOptions::default(), &MapParser).unwrap(),
        VerifierState::SignedButFailedVerification
    );

    let wire = sign_proto(&SignProtoParams {
        payload: PAYLOAD_P256,
        algorithm: AlgorithmId::EcdsaP256Sha256,
        key: &sk0,
        keyid: Some("p256-e2e"),
        append_missing_final_newline: false,
    })
    .unwrap();

    assert!(matches!(
        verify_proto(&wire, &p_keys(0), VerifierOptions::default()).unwrap(),
        VerifierState::Verified { .. }
    ));
    assert_eq!(
        verify_proto(&wire, &p_keys(1), VerifierOptions::default()).unwrap(),
        VerifierState::SignedButFailedVerification
    );

    let pre = pre_verify_yaml(&artifact, false, &MapParser);
    assert!(matches!(
        verify_from_pre_verify_yaml(&pre, &p_keys(0), VerifierOptions::default()).unwrap(),
        VerifierState::Verified { .. }
    ));
    assert_eq!(
        verify_from_pre_verify_yaml(&pre, &p_keys(1), VerifierOptions::default()).unwrap(),
        VerifierState::SignedButFailedVerification
    );
}

#[test]
fn e2e_key_resolution_failure_wrong_key_slot() {
    let sk = ed25519_signing_key(0);
    let artifact = sign_yaml(&SignYamlParams {
        payload: PAYLOAD_ED,
        algorithm: AlgorithmId::Ed25519,
        key: &sk,
        keyid: None,
        append_missing_final_newline: false,
    })
    .unwrap();

    let err = verify_yaml(&artifact, &p_keys(0), VerifierOptions::default(), &MapParser).unwrap_err();
    assert_eq!(err, InvocationError::KeyResolutionFailure);

    let wire = sign_proto(&SignProtoParams {
        payload: PAYLOAD_ED,
        algorithm: AlgorithmId::Ed25519,
        key: &sk,
        keyid: None,
        append_missing_final_newline: false,
    })
    .unwrap();
    let err = verify_proto(&wire, &p_keys(0), VerifierOptions::default()).unwrap_err();
    assert_eq!(err, InvocationError::KeyResolutionFailure);
}

#[test]
fn e2e_signed_but_algorithm_unsupported_options() {
    let sk = p256_signing_key(0);
    let artifact = sign_yaml(&SignYamlParams {
        payload: PAYLOAD_P256,
        algorithm: AlgorithmId::EcdsaP256Sha256,
        key: &sk,
        keyid: None,
        append_missing_final_newline: false,
    })
    .unwrap();

    let opts = VerifierOptions {
        verify_ed25519: true,
        verify_ecdsa_p256_sha256: false,
        ..VerifierOptions::default()
    };
    assert_eq!(
        verify_yaml(&artifact, &p_keys(0), opts.clone(), &MapParser).unwrap(),
        VerifierState::SignedButAlgorithmUnsupported { algorithm: AlgorithmId::EcdsaP256Sha256 }
    );

    let wire = sign_proto(&SignProtoParams {
        payload: PAYLOAD_P256,
        algorithm: AlgorithmId::EcdsaP256Sha256,
        key: &sk,
        keyid: None,
        append_missing_final_newline: false,
    })
    .unwrap();
    assert_eq!(
        verify_proto(&wire, &p_keys(0), opts).unwrap(),
        VerifierState::SignedButAlgorithmUnsupported { algorithm: AlgorithmId::EcdsaP256Sha256 }
    );
}

#[test]
fn e2e_proto_tamper_fails_verification_or_malformed() {
    let sk = ed25519_signing_key(1);
    let mut wire = sign_proto(&SignProtoParams {
        payload: b"tamper: base\n",
        algorithm: AlgorithmId::Ed25519,
        key: &sk,
        keyid: None,
        append_missing_final_newline: false,
    })
    .unwrap();
    assert!(!wire.is_empty());
    let i = wire.len() / 2;
    wire[i] ^= 0x5A;

    let st = verify_proto(&wire, &ed_keys(1), VerifierOptions::default()).unwrap();
    assert!(
        matches!(st, VerifierState::MalformedAttemptedSigned | VerifierState::SignedButFailedVerification),
        "unexpected state: {st:?}"
    );
}

#[test]
fn e2e_second_ed25519_keypair_sign_verify_independent() {
    let sk = ed25519_signing_key(1);
    let artifact = sign_yaml(&SignYamlParams {
        payload: b"pair-1-only: ok\n",
        algorithm: AlgorithmId::Ed25519,
        key: &sk,
        keyid: None,
        append_missing_final_newline: false,
    })
    .unwrap();
    assert!(matches!(
        verify_yaml(&artifact, &ed_keys(1), VerifierOptions::default(), &MapParser).unwrap(),
        VerifierState::Verified { .. }
    ));
    assert_eq!(
        verify_yaml(&artifact, &ed_keys(0), VerifierOptions::default(), &MapParser).unwrap(),
        VerifierState::SignedButFailedVerification
    );
}

#[test]
fn e2e_both_keys_supplied_correct_branch_used() {
    let sk_ed = ed25519_signing_key(0);
    let artifact = sign_yaml(&SignYamlParams {
        payload: PAYLOAD_ED,
        algorithm: AlgorithmId::Ed25519,
        key: &sk_ed,
        keyid: None,
        append_missing_final_newline: false,
    })
    .unwrap();

    let keys = PublicKeys { ed25519: ed_keys(0).ed25519, p256: p_keys(0).p256 };
    assert!(matches!(
        verify_yaml(&artifact, &keys, VerifierOptions::default(), &MapParser).unwrap(),
        VerifierState::Verified { .. }
    ));
    let _ = keys_both(1, 2);
}

fn assert_verified_yaml(keys: &PublicKeys, yaml: &[u8]) {
    assert!(
        matches!(
            verify_yaml(yaml, keys, VerifierOptions::default(), &MapParser).unwrap(),
            VerifierState::Verified { .. }
        ),
        "expected Verified YAML"
    );
}

fn assert_verified_proto(keys: &PublicKeys, wire: &[u8]) {
    assert!(
        matches!(verify_proto(wire, keys, VerifierOptions::default()).unwrap(), VerifierState::Verified { .. }),
        "expected Verified proto"
    );
}

#[test]
fn e2e_spec_roundtrip_yaml_proto_yaml_ed25519() {
    let sk = ed25519_signing_key(0);
    let keys = ed_keys(0);
    let yaml0 = sign_yaml(&SignYamlParams {
        payload: PAYLOAD_ED,
        algorithm: AlgorithmId::Ed25519,
        key: &sk,
        keyid: Some("kid-rt"),
        append_missing_final_newline: false,
    })
    .unwrap();
    assert_verified_yaml(&keys, &yaml0);

    let wire = signed_yaml_stream_to_proto_wire(&yaml0).unwrap();
    assert_verified_proto(&keys, &wire);

    let yaml1 = proto_wire_to_signed_yaml_stream(&wire).unwrap();
    assert_verified_yaml(&keys, &yaml1);

    let wire2 = signed_yaml_stream_to_proto_wire(&yaml1).unwrap();
    assert_verified_proto(&keys, &wire2);
}

#[test]
fn e2e_spec_roundtrip_proto_yaml_proto_ed25519() {
    let sk = ed25519_signing_key(0);
    let keys = ed_keys(0);
    let wire0 = sign_proto(&SignProtoParams {
        payload: PAYLOAD_ED,
        algorithm: AlgorithmId::Ed25519,
        key: &sk,
        keyid: Some("kid-pr"),
        append_missing_final_newline: false,
    })
    .unwrap();
    assert_verified_proto(&keys, &wire0);

    let yaml = proto_wire_to_signed_yaml_stream(&wire0).unwrap();
    assert_verified_yaml(&keys, &yaml);

    let wire1 = signed_yaml_stream_to_proto_wire(&yaml).unwrap();
    assert_verified_proto(&keys, &wire1);
}

#[test]
fn e2e_spec_roundtrip_yaml_proto_yaml_p256() {
    let sk = p256_signing_key(0);
    let keys = p_keys(0);
    let yaml0 = sign_yaml(&SignYamlParams {
        payload: PAYLOAD_P256,
        algorithm: AlgorithmId::EcdsaP256Sha256,
        key: &sk,
        keyid: None,
        append_missing_final_newline: false,
    })
    .unwrap();
    assert_verified_yaml(&keys, &yaml0);

    let wire = signed_yaml_stream_to_proto_wire(&yaml0).unwrap();
    assert_verified_proto(&keys, &wire);

    let yaml1 = proto_wire_to_signed_yaml_stream(&wire).unwrap();
    assert_verified_yaml(&keys, &yaml1);
}

#[test]
fn e2e_spec_roundtrip_proto_yaml_proto_p256() {
    let sk = p256_signing_key(0);
    let keys = p_keys(0);
    let wire0 = sign_proto(&SignProtoParams {
        payload: PAYLOAD_P256,
        algorithm: AlgorithmId::EcdsaP256Sha256,
        key: &sk,
        keyid: None,
        append_missing_final_newline: false,
    })
    .unwrap();
    assert_verified_proto(&keys, &wire0);

    let yaml = proto_wire_to_signed_yaml_stream(&wire0).unwrap();
    assert_verified_yaml(&keys, &yaml);

    let wire1 = signed_yaml_stream_to_proto_wire(&yaml).unwrap();
    assert_verified_proto(&keys, &wire1);
}

#[test]
fn signing_key_public_keys_match_dalek_and_p256() {
    assert_eq!(ed25519_signing_key(3).verifying_keys(), Some(keys_ed25519(0x13)));
    assert_eq!(p256_signing_key(3).verifying_keys(), Some(keys_p256(0x23)));
    assert_eq!(SigningKey::Ed25519(vec![1; 31]).verifying_keys(), None);
    assert_eq!(SigningKey::EcdsaP256Sha256(vec![0; 32]).verifying_keys(), None);
}

// ---- verification providers ----

enum ReferenceKey {
    Ed25519(Vec<u8>),
    EcdsaP256Sha256(p256::ecdsa::VerifyingKey),
}

struct ReferenceVerifier {
    key: ReferenceKey,
    strict_ed25519: bool,
    calls: Rc<Cell<usize>>,
}

impl ProviderVerifier for ReferenceVerifier {
    fn verify_provider(&self, message: &[u8], signature: &[u8]) -> ProviderVerificationOutcome {
        self.calls.set(self.calls.get() + 1);
        let verified = match &self.key {
            ReferenceKey::Ed25519(key) if self.strict_ed25519 => {
                let Ok(sig) = ed25519_dalek::Signature::from_slice(signature) else {
                    return ProviderVerificationOutcome::SignatureMismatch;
                };
                let vk = ed25519_dalek::VerifyingKey::from_bytes(&key.as_slice().try_into().unwrap()).unwrap();
                vk.verify_strict(message, &sig).is_ok()
            }
            ReferenceKey::Ed25519(key) => verify_ed25519_cofactored(key, message, signature),
            ReferenceKey::EcdsaP256Sha256(key) => {
                match p256::ecdsa::Signature::from_slice(signature) {
                    Ok(sig) => key.verify(message, &sig).is_ok(),
                    Err(_) => false,
                }
            }
        };
        if verified {
            ProviderVerificationOutcome::Verified
        } else {
            ProviderVerificationOutcome::SignatureMismatch
        }
    }
}

struct ReferenceFactory {
    strict_ed25519: bool,
    binds: Rc<Cell<usize>>,
    verifications: Rc<Cell<usize>>,
}

impl ReferenceFactory {
    fn new(strict_ed25519: bool) -> Self {
        Self { strict_ed25519, binds: Rc::new(Cell::new(0)), verifications: Rc::new(Cell::new(0)) }
    }
}

impl ProviderVerifierFactory for ReferenceFactory {
    type Verifier = ReferenceVerifier;

    fn bind(&self, algorithm: AlgorithmId, canonical_public_key: &[u8]) -> Result<ReferenceVerifier, ProviderBindFailure> {
        self.binds.set(self.binds.get() + 1);
        let key = match algorithm {
            AlgorithmId::Ed25519 => ReferenceKey::Ed25519(
                resolve_ed25519_verifying_key(canonical_public_key).map_err(|_| ProviderBindFailure)?,
            ),
            AlgorithmId::EcdsaP256Sha256 => ReferenceKey::EcdsaP256Sha256(
                p256::ecdsa::VerifyingKey::from_sec1_bytes(canonical_public_key).map_err(|_| ProviderBindFailure)?,
            ),
        };
        Ok(ReferenceVerifier { key, strict_ed25519: self.strict_ed25519, calls: Rc::clone(&self.verifications) })
    }
}

struct FailingVerifier;

impl ProviderVerifier for FailingVerifier {
    fn verify_provider(&self, _message: &[u8], _signature: &[u8]) -> ProviderVerificationOutcome {
        ProviderVerificationOutcome::ProviderFailure
    }
}

struct FailingFactory;

impl ProviderVerifierFactory for FailingFactory {
    type Verifier = FailingVerifier;

    fn bind(&self, _algorithm: AlgorithmId, _canonical_public_key: &[u8]) -> Result<FailingVerifier, ProviderBindFailure> {
        Ok(FailingVerifier)
    }
}

#[test]
fn reference_provider_qualifies_both_slots() {
    let provider = VerificationProviderBuilder::new(ReferenceFactory::new(false)).qualify();

    assert!(provider.status(AlgorithmId::Ed25519).is_qualified());
    assert!(provider.status(AlgorithmId::EcdsaP256Sha256).is_qualified());
    assert_eq!(provider.provider().binds.get(), 4);
    assert_eq!(provider.provider().verifications.get(), 7);
}

#[test]
fn qualification_rejects_only_the_incompatible_algorithm_slot() {
    let provider = VerificationProviderBuilder::new(ReferenceFactory::new(true)).qualify();

    let ProviderQualificationStatus::Rejected(error) = provider.status(AlgorithmId::Ed25519) else {
        panic!("strict Ed25519 verification must reject the cofactored vector");
    };
    assert_eq!(error.kind(), ProviderQualificationErrorKind::ValidSignatureRejected);
    assert_eq!(error.algorithm(), AlgorithmId::Ed25519);
    assert!(provider.status(AlgorithmId::EcdsaP256Sha256).is_qualified());
}

#[test]
fn provider_failure_remains_distinct_during_qualification() {
    let provider = VerificationProviderBuilder::new(FailingFactory).qualify();

    for algorithm in [AlgorithmId::Ed25519, AlgorithmId::EcdsaP256Sha256] {
        let ProviderQualificationStatus::Rejected(error) = provider.status(algorithm) else {
            panic!("failing provider must not qualify");
        };
        assert_eq!(error.kind(), ProviderQualificationErrorKind::ProviderFailure);
        assert_eq!(error.algorithm(), algorithm);
    }
}

#[test]
fn inadmissible_keys_are_rejected_before_provider_binding() {
    let factory = ReferenceFactory::new(false);
    let binds = Rc::clone(&factory.binds);
    let provider = VerificationProviderBuilder::new(factory).build_unqualified();

    let error = expect_err(provider.bind_ed25519(&[0; 31]));
    assert_eq!(error.kind(), ProviderKeyBindingErrorKind::InvalidPublicKey);
    assert_eq!(error.algorithm(), AlgorithmId::Ed25519);
    assert_eq!(binds.get(), 0);
}

#[test]
fn rejected_slot_cannot_bind_and_errors_name_no_key() {
    let provider = VerificationProviderBuilder::new(ReferenceFactory::new(true)).qualify();
    let key = ed25519_public(17);

    let error = expect_err(provider.bind_ed25519(&key));
    assert_eq!(error.kind(), ProviderKeyBindingErrorKind::AlgorithmNotQualified);
    assert_eq!(error.message(), "provider verification key could not be bound");
    assert!(!format!("{error:?}").contains(&format!("{key:?}")));
}

fn pre_verified_vector(algorithm: AlgorithmId, message: &[u8], signature: &[u8]) -> PreVerifyResponse {
    PreVerifyResponse {
        outcome: PreVerifyOutcome::Extracted,
        form: ArtifactForm::Proto,
        unverified_payload_bytes: Some(message.to_vec()),
        unverified_signature: Some(UnverifiedSignature {
            algorithm,
            keyid: None,
            signature_octets: signature.to_vec(),
        }),
        parser_observations: Vec::new(),
    }
}

#[test]
fn qualified_operation_path_preserves_accepted_ed25519_and_p256_cases() {
    let provider = VerificationProviderBuilder::new(ReferenceFactory::new(false)).qualify();

    for (public_key, message, signature) in [
        (rfc8032_test_1_public_key(), b"".as_slice(), rfc8032_test_1_signature()),
        (ed25519_mixed_r_public_key(), ed25519_mixed_r_message().as_bytes(), ed25519_mixed_r_signature()),
        (ed25519_mixed_a_public_key(), ed25519_mixed_a_message().as_bytes(), ed25519_mixed_a_signature()),
    ] {
        let key = provider.bind_ed25519(&public_key).unwrap();
        let keys = ProviderPublicKeys { ed25519: Some(&key), p256: None };
        assert_eq!(
            verify_from_pre_verify_with_provider(
                &pre_verified_vector(AlgorithmId::Ed25519, message, &signature),
                &keys,
                VerifierOptions::default(),
            ),
            Ok(VerifierState::Verified { payload: message.to_vec(), algorithm: AlgorithmId::Ed25519 })
        );
    }

    let key = provider.bind_ecdsa_p256_sha256(&p256_qualification_public_key()).unwrap();
    let keys = ProviderPublicKeys { ed25519: None, p256: Some(&key) };
    for signature in [p256_qualification_low_signature(), p256_qualification_high_signature()] {
        assert_eq!(
            verify_from_pre_verify_with_provider(
                &pre_verified_vector(
                    AlgorithmId::EcdsaP256Sha256,
                    p256_qualification_message().as_bytes(),
                    &signature
                ),
                &keys,
                VerifierOptions::default(),
            ),
            Ok(VerifierState::Verified {
                payload: p256_qualification_message().as_bytes().to_vec(),
                algorithm: AlgorithmId::EcdsaP256Sha256,
            })
        );
    }
}

#[test]
fn qualified_operation_rejects_bad_keys_and_signatures_before_provider_work() {
    let factory = ReferenceFactory::new(false);
    let binds = Rc::clone(&factory.binds);
    let verifications = Rc::clone(&factory.verifications);
    let provider = VerificationProviderBuilder::new(factory).qualify();

    let binds_after_qualification = binds.get();
    let mut small_order_key = [0; 32];
    small_order_key[0] = 1;
    let error = expect_err(provider.bind_ed25519(&small_order_key));
    assert_eq!(error.kind(), ProviderKeyBindingErrorKind::InvalidPublicKey);
    assert_eq!(binds.get(), binds_after_qualification);

    let ed25519_key = provider.bind_ed25519(&rfc8032_test_1_public_key()).unwrap();
    let ed25519_keys = ProviderPublicKeys { ed25519: Some(&ed25519_key), p256: None };
    let calls_before_malformed = verifications.get();
    assert_eq!(
        verify_from_pre_verify_with_provider(
            &pre_verified_vector(AlgorithmId::Ed25519, b"", &[0xff; 64]),
            &ed25519_keys,
            VerifierOptions::default(),
        ),
        Ok(VerifierState::MalformedAttemptedSigned)
    );
    assert_eq!(verifications.get(), calls_before_malformed);

    let p256_key = provider.bind_ecdsa_p256_sha256(&p256_qualification_public_key()).unwrap();
    let p256_keys = ProviderPublicKeys { ed25519: None, p256: Some(&p256_key) };
    assert_eq!(
        verify_from_pre_verify_with_provider(
            &pre_verified_vector(AlgorithmId::EcdsaP256Sha256, p256_qualification_message().as_bytes(), &[0; 64]),
            &p256_keys,
            VerifierOptions::default(),
        ),
        Ok(VerifierState::MalformedAttemptedSigned)
    );
    assert_eq!(verifications.get(), calls_before_malformed);
}

#[test]
fn provider_outcomes_map_to_verifier_states() {
    let provider = VerificationProviderBuilder::new(FailingFactory).build_unqualified();
    let key = provider.bind_ed25519(&rfc8032_test_1_public_key()).unwrap();
    let keys = UnqualifiedProviderPublicKeys { ed25519: Some(&key), p256: None };
    assert_eq!(
        verify_from_pre_verify_with_unqualified_provider(
            &pre_verified_vector(AlgorithmId::Ed25519, b"", &rfc8032_test_1_signature()),
            &keys,
            VerifierOptions::default(),
        ),
        Err(InvocationError::KeyResolutionFailure)
    );
    let options = VerifierOptions { algorithm_parameters: vec![1], ..VerifierOptions::default() };
    assert_eq!(
        verify_from_pre_verify_with_unqualified_provider(
            &pre_verified_vector(AlgorithmId::Ed25519, b"", &rfc8032_test_1_signature()),
            &keys,
            options,
        ),
        Err(InvocationError::InvalidAlgorithmParameters)
    );
}

// ---- provider signing keys ----

#[test]
fn qualified_builder_does_not_request_a_synthetic_signature() {
    let signer = ed25519_dalek::SigningKey::from_bytes(&[3; 32]);
    let public_key = signer.verifying_key().to_bytes();
    let key = ProviderSigningKeyBuilder::ed25519(&public_key).build().unwrap();

    let produced = ed25519_dalek::Signer::sign(&signer, b"real payload\n").to_bytes().to_vec();
    assert_eq!(key.accept_signature(b"real payload\n", Some(produced)).unwrap().len(), 64);
}

#[test]
fn qualified_key_rejects_output_for_another_bound_public_key() {
    let signer = ed25519_dalek::SigningKey::from_bytes(&[4; 32]);
    let other = ed25519_dalek::SigningKey::from_bytes(&[5; 32]);
    let key = ProviderSigningKeyBuilder::ed25519(other.verifying_key().as_bytes()).build().unwrap();

    let produced = ed25519_dalek::Signer::sign(&signer, b"payload").to_bytes().to_vec();
    assert!(matches!(key.accept_signature(b"payload", Some(produced)), Err(SignError::KeyOperationFailure)));
}

#[test]
fn unqualified_key_still_rejects_malformed_signature_octets() {
    let signing_key = ed25519_dalek::SigningKey::from_bytes(&[6; 32]);
    let key = ProviderSigningKeyBuilder::ed25519(signing_key.verifying_key().as_bytes()).build_unqualified().unwrap();

    assert!(matches!(key.accept_signature(Some(vec![0xff; 64])), Err(SignError::KeyOperationFailure)));
    assert!(matches!(key.accept_signature(None), Err(SignError::KeyOperationFailure)));
}

#[test]
fn builders_reject_inadmissible_public_key_encodings() {
    let ed_error = expect_err(ProviderSigningKeyBuilder::ed25519(&[0; 31]).build());
    assert_eq!(ed_error.kind(), ProviderSigningKeyErrorKind::InvalidPublicKey);
    assert_eq!(ed_error.algorithm(), AlgorithmId::Ed25519);

    let p256_key = p256::ecdsa::SigningKey::from_slice(&[7; 32]).unwrap();
    let compressed = p256_key.verifying_key().to_encoded_point(true);
    let p256_error = expect_err(ProviderSigningKeyBuilder::ecdsa_p256_sha256(compressed.as_bytes()).build_unqualified());
    assert_eq!(p256_error.kind(), ProviderSigningKeyErrorKind::InvalidPublicKey);
    assert_eq!(p256_error.algorithm(), AlgorithmId::EcdsaP256Sha256);
    assert_eq!(p256_error.message(), "provider signing key could not be constructed");
}

#[test]
fn qualified_p256_signing_accepts_the_high_s_representative() {
    let signing_key = p256::ecdsa::SigningKey::from_slice(&[10; 32]).unwrap();
    let message = b"high-S provider output";
    let signature: p256::ecdsa::Signature = signing_key.try_sign(message).unwrap();
    let low_signature = signature.normalize_s().unwrap_or(signature);
    let (r, _) = low_signature.split_bytes();
    let high_s: p256::FieldBytes = (-*low_signature.s()).into();
    let high_signature: Vec<u8> = p256::ecdsa::Signature::from_scalars(r, high_s).unwrap().to_bytes().to_vec();
    let public_key = signing_key.verifying_key().to_encoded_point(false);
    let key = ProviderSigningKeyBuilder::ecdsa_p256_sha256(public_key.as_bytes()).build().unwrap();

    assert_eq!(key.accept_signature(message, Some(high_signature.clone())).unwrap(), high_signature);
}

fn expect_err<T, E>(result: Result<T, E>) -> E {
    match result {
        Ok(_) => panic!("expected an error"),
        Err(error) => error,
    }
}

// ---- complete-input verification through provider-bound keys ----

#[test]
fn provider_bound_keys_verify_complete_artifacts_of_both_forms() {
    let signing_key = ed25519_signing_key(3);
    let public_key = ed_keys(3).ed25519.unwrap();
    let yaml = sign_yaml(&SignYamlParams {
        payload: PAYLOAD_ED,
        algorithm: AlgorithmId::Ed25519,
        key: &signing_key,
        keyid: Some("kid-provider"),
        append_missing_final_newline: false,
    })
    .unwrap();
    let wire = sign_proto(&SignProtoParams {
        payload: PAYLOAD_ED,
        algorithm: AlgorithmId::Ed25519,
        key: &signing_key,
        keyid: None,
        append_missing_final_newline: false,
    })
    .unwrap();
    let verified = Ok(VerifierState::Verified { payload: PAYLOAD_ED.to_vec(), algorithm: AlgorithmId::Ed25519 });

    let qualified = VerificationProviderBuilder::new(ReferenceFactory::new(false)).qualify();
    let key = qualified.bind_ed25519(&public_key).unwrap();
    let keys = ProviderPublicKeys { ed25519: Some(&key), p256: None };
    assert_eq!(verify_with_provider(&yaml, ArtifactForm::Yaml, &keys, VerifierOptions::default(), &MapParser), verified);
    assert_eq!(verify_with_provider(&wire, ArtifactForm::Proto, &keys, VerifierOptions::default(), &MapParser), verified);

    let other = qualified.bind_ed25519(&ed_keys(4).ed25519.unwrap()).unwrap();
    let other_keys = ProviderPublicKeys { ed25519: Some(&other), p256: None };
    assert_eq!(
        verify_with_provider(&wire, ArtifactForm::Proto, &other_keys, VerifierOptions::default(), &MapParser),
        Ok(VerifierState::SignedButFailedVerification)
    );
    let no_provider_keys: ProviderPublicKeys<'_, ReferenceVerifier> = ProviderPublicKeys { ed25519: None, p256: None };
    assert_eq!(
        verify_with_provider(&wire, ArtifactForm::Proto, &no_provider_keys, VerifierOptions::default(), &MapParser),
        Err(InvocationError::KeyResolutionFailure)
    );
    assert_eq!(
        verify_with_provider(b"a: b\n", ArtifactForm::Yaml, &keys, VerifierOptions::default(), &MapParser),
        Ok(VerifierState::MalformedAttemptedSigned)
    );
    let options = VerifierOptions { algorithm_parameters: vec![1], ..VerifierOptions::default() };
    assert_eq!(
        verify_with_provider(&wire, ArtifactForm::Proto, &keys, options, &MapParser),
        Err(InvocationError::InvalidAlgorithmParameters)
    );
    let with_metadata =
        verify_with_provider_and_metadata(&yaml, ArtifactForm::Yaml, &keys, VerifierOptions::default(), false, &MapParser)
            .unwrap();
    assert!(with_metadata.parser_observations.is_empty());
    assert!(matches!(with_metadata.state, VerifierState::Verified { .. }));

    let limit = ArtifactResourceLimits::unbounded().with_max_artifact_bytes(wire.len() - 1);
    let error = verify_with_provider_and_resource_limits(
        &wire,
        ArtifactForm::Proto,
        &keys,
        VerifierOptions::default(),
        &limit,
        &MapParser,
    )
    .unwrap_err();
    assert_eq!(error.kind(), ArtifactResourceErrorKind::InputArtifactTooLarge);
    assert_eq!(error.artifact_form(), Some(ArtifactResourceForm::Protobuf));
    assert_eq!(error.observed_or_projected_artifact_bytes(), Some(wire.len()));

    let unqualified = VerificationProviderBuilder::new(ReferenceFactory::new(false)).build_unqualified();
    let unqualified_key = unqualified.bind_ed25519(&public_key).unwrap();
    let unqualified_keys = UnqualifiedProviderPublicKeys { ed25519: Some(&unqualified_key), p256: None };
    assert_eq!(
        verify_with_unqualified_provider(&yaml, ArtifactForm::Yaml, &unqualified_keys, VerifierOptions::default(), &MapParser),
        verified
    );
    let bounded = verify_with_unqualified_provider_and_metadata_and_resource_limits(
        &yaml,
        ArtifactForm::Yaml,
        &unqualified_keys,
        VerifierOptions::default(),
        true,
        &ArtifactResourceLimits::unbounded().with_max_artifact_bytes(yaml.len()),
        &MapParser,
    )
    .unwrap()
    .unwrap();
    assert!(matches!(bounded.state, VerifierState::Verified { .. }));
}

// ---- provider paths over scripted and reference providers ----

type RecordedMessages = Rc<std::cell::RefCell<Vec<Vec<u8>>>>;

struct ScriptedVerifier {
    outcome: ProviderVerificationOutcome,
    calls: Rc<Cell<usize>>,
    messages: RecordedMessages,
}

impl ProviderVerifier for ScriptedVerifier {
    fn verify_provider(&self, message: &[u8], _signature: &[u8]) -> ProviderVerificationOutcome {
        self.calls.set(self.calls.get() + 1);
        self.messages.borrow_mut().push(message.to_vec());
        self.outcome
    }
}

struct ScriptedFactory {
    outcome: ProviderVerificationOutcome,
    calls: Rc<Cell<usize>>,
    messages: RecordedMessages,
}

impl ProviderVerifierFactory for ScriptedFactory {
    type Verifier = ScriptedVerifier;

    fn bind(&self, _algorithm: AlgorithmId, _canonical_public_key: &[u8]) -> Result<ScriptedVerifier, ProviderBindFailure> {
        Ok(ScriptedVerifier {
            outcome: self.outcome,
            calls: Rc::clone(&self.calls),
            messages: Rc::clone(&self.messages),
        })
    }
}

fn scripted_factory(outcome: ProviderVerificationOutcome) -> (ScriptedFactory, Rc<Cell<usize>>, RecordedMessages) {
    let calls = Rc::new(Cell::new(0));
    let messages = Rc::new(std::cell::RefCell::new(Vec::new()));
    (
        ScriptedFactory { outcome, calls: Rc::clone(&calls), messages: Rc::clone(&messages) },
        calls,
        messages,
    )
}

fn signed_ed25519_artifact(form: ArtifactForm) -> (Vec<u8>, Vec<u8>) {
    let signing_key = SigningKey::Ed25519(vec![40; 32]);
    let verifying_key = ed25519_dalek::SigningKey::from_bytes(&[40; 32]).verifying_key().to_bytes().to_vec();
    let artifact = match form {
        ArtifactForm::Yaml => sign_yaml(&SignYamlParams {
            payload: b"scripted-provider: test\n",
            algorithm: AlgorithmId::Ed25519,
            key: &signing_key,
            keyid: None,
            append_missing_final_newline: false,
        })
        .unwrap(),
        ArtifactForm::Proto => sign_proto(&SignProtoParams {
            payload: b"scripted-provider: test\n",
            algorithm: AlgorithmId::Ed25519,
            key: &signing_key,
            keyid: None,
            append_missing_final_newline: false,
        })
        .unwrap(),
    };
    (artifact, verifying_key)
}

#[test]
fn verification_preserves_mismatch_and_provider_failure_categories() {
    let (artifact, public_key) = signed_ed25519_artifact(ArtifactForm::Yaml);
    for (outcome, expected) in [
        (ProviderVerificationOutcome::SignatureMismatch, Ok(VerifierState::SignedButFailedVerification)),
        (ProviderVerificationOutcome::ProviderFailure, Err(InvocationError::KeyResolutionFailure)),
    ] {
        let (factory, calls, _) = scripted_factory(outcome);
        let provider = VerificationProviderBuilder::new(factory).build_unqualified();
        let key = provider.bind_ed25519(&public_key).unwrap();
        let keys = UnqualifiedProviderPublicKeys { ed25519: Some(&key), p256: None };
        assert_eq!(
            verify_with_unqualified_provider(&artifact, ArtifactForm::Yaml, &keys, VerifierOptions::default(), &MapParser),
            expected
        );
        assert_eq!(calls.get(), 1);
    }
}

#[test]
fn malformed_signature_octets_never_reach_a_provider() {
    let public_key = ed25519_dalek::SigningKey::from_bytes(&[41; 32]).verifying_key().to_bytes();
    let (factory, calls, _) = scripted_factory(ProviderVerificationOutcome::Verified);
    let provider = VerificationProviderBuilder::new(factory).build_unqualified();
    let key = provider.bind_ed25519(&public_key).unwrap();
    let keys = UnqualifiedProviderPublicKeys { ed25519: Some(&key), p256: None };

    for signature_octets in [vec![0xff; 64], vec![0; 63], vec![0x30; 70]] {
        let pre = PreVerifyResponse {
            outcome: PreVerifyOutcome::Extracted,
            form: ArtifactForm::Yaml,
            unverified_payload_bytes: Some(b"payload\n".to_vec()),
            unverified_signature: Some(UnverifiedSignature {
                algorithm: AlgorithmId::Ed25519,
                keyid: None,
                signature_octets,
            }),
            parser_observations: Vec::new(),
        };
        assert_eq!(
            verify_from_pre_verify_with_unqualified_provider(&pre, &keys, VerifierOptions::default()),
            Ok(VerifierState::MalformedAttemptedSigned)
        );
    }
    assert_eq!(calls.get(), 0);

    let p256_signing_key = p256::ecdsa::SigningKey::from_slice(&[42; 32]).unwrap();
    let p256_key = provider
        .bind_ecdsa_p256_sha256(p256_signing_key.verifying_key().to_encoded_point(false).as_bytes())
        .unwrap();
    let p256_keys = UnqualifiedProviderPublicKeys { ed25519: None, p256: Some(&p256_key) };
    let valid_signature: p256::ecdsa::Signature = p256_signing_key.sign(b"payload\n");
    for signature_octets in [vec![0; 64], valid_signature.to_der().as_bytes().to_vec()] {
        let pre = PreVerifyResponse {
            outcome: PreVerifyOutcome::Extracted,
            form: ArtifactForm::Proto,
            unverified_payload_bytes: Some(b"payload\n".to_vec()),
            unverified_signature: Some(UnverifiedSignature {
                algorithm: AlgorithmId::EcdsaP256Sha256,
                keyid: None,
                signature_octets,
            }),
            parser_observations: Vec::new(),
        };
        assert_eq!(
            verify_from_pre_verify_with_unqualified_provider(&pre, &p256_keys, VerifierOptions::default()),
            Ok(VerifierState::MalformedAttemptedSigned)
        );
    }
    assert_eq!(calls.get(), 0);
}

#[test]
fn resource_admission_precedes_provider_verification_and_handoff_runs_once() {
    let (artifact, public_key) = signed_ed25519_artifact(ArtifactForm::Proto);
    let (factory, calls, _) = scripted_factory(ProviderVerificationOutcome::Verified);
    let unqualified = VerificationProviderBuilder::new(factory).build_unqualified();
    let unqualified_key = unqualified.bind_ed25519(&public_key).unwrap();
    let unqualified_keys = UnqualifiedProviderPublicKeys { ed25519: Some(&unqualified_key), p256: None };
    let limit = ArtifactResourceLimits::unbounded().with_max_artifact_bytes(artifact.len() - 1);
    let error = yaml_sigil::provider_input::verify_with_unqualified_provider_and_resource_limits(
        &artifact,
        ArtifactForm::Proto,
        &unqualified_keys,
        VerifierOptions::default(),
        &limit,
        &MapParser,
    )
    .unwrap_err();
    assert_eq!(error.kind(), ArtifactResourceErrorKind::InputArtifactTooLarge);
    assert_eq!(calls.get(), 0);

    let provider = VerificationProviderBuilder::new(ReferenceFactory::new(false)).qualify();
    let key = provider.bind_ed25519(&public_key).unwrap();
    let keys = ProviderPublicKeys { ed25519: Some(&key), p256: None };

    let exact = ArtifactResourceLimits::unbounded().with_max_artifact_bytes(artifact.len());
    let pre = pre_verify_with_resource_limits(&artifact, ArtifactForm::Proto, false, false, &exact, &MapParser).unwrap();
    assert!(matches!(
        verify_from_pre_verify_with_provider(&pre, &keys, VerifierOptions::default()),
        Ok(VerifierState::Verified { .. })
    ));
}

#[test]
fn provider_metadata_and_exact_message_paths_remain_available() {
    let (artifact, public_key) = signed_ed25519_artifact(ArtifactForm::Yaml);
    let (factory, calls, messages) = scripted_factory(ProviderVerificationOutcome::Verified);
    let provider = VerificationProviderBuilder::new(factory).build_unqualified();
    let key = provider.bind_ed25519(&public_key).unwrap();
    let keys = UnqualifiedProviderPublicKeys { ed25519: Some(&key), p256: None };

    let result = yaml_sigil::provider_input::verify_with_unqualified_provider_and_metadata(
        &artifact,
        ArtifactForm::Yaml,
        &keys,
        VerifierOptions::default(),
        true,
        &MapParser,
    )
    .unwrap();
    assert!(matches!(result.state, VerifierState::Verified { .. }));
    assert_eq!(calls.get(), 1);
    assert_eq!(messages.borrow().as_slice(), [b"scripted-provider: test\n"]);

    let qualified = VerificationProviderBuilder::new(ReferenceFactory::new(false)).qualify();
    let qualified_key = qualified.bind_ed25519(&public_key).unwrap();
    let qualified_keys = ProviderPublicKeys { ed25519: Some(&qualified_key), p256: None };
    let result = verify_with_provider_and_metadata(
        &artifact,
        ArtifactForm::Yaml,
        &qualified_keys,
        VerifierOptions::default(),
        true,
        &MapParser,
    )
    .unwrap();
    assert!(matches!(result.state, VerifierState::Verified { .. }));
}

#[test]
fn provider_resource_and_metadata_entry_points_accept_exact_boundaries() {
    let (artifact, public_key) = signed_ed25519_artifact(ArtifactForm::Yaml);
    let exact = ArtifactResourceLimits::unbounded().with_max_artifact_bytes(artifact.len());

    let qualified = VerificationProviderBuilder::new(ReferenceFactory::new(false)).qualify();
    let qualified_key = qualified.bind_ed25519(&public_key).unwrap();
    let qualified_keys = ProviderPublicKeys { ed25519: Some(&qualified_key), p256: None };
    assert!(matches!(
        verify_with_provider_and_resource_limits(
            &artifact,
            ArtifactForm::Yaml,
            &qualified_keys,
            VerifierOptions::default(),
            &exact,
            &MapParser,
        )
        .unwrap(),
        Ok(VerifierState::Verified { .. })
    ));
    assert!(matches!(
        yaml_sigil::provider_input::verify_with_provider_and_metadata_and_resource_limits(
            &artifact,
            ArtifactForm::Yaml,
            &qualified_keys,
            VerifierOptions::default(),
            true,
            &exact,
            &MapParser,
        )
        .unwrap()
        .unwrap()
        .state,
        VerifierState::Verified { .. }
    ));

    let (factory, _, _) = scripted_factory(ProviderVerificationOutcome::Verified);
    let unqualified = VerificationProviderBuilder::new(factory).build_unqualified();
    let unqualified_key = unqualified.bind_ed25519(&public_key).unwrap();
    let unqualified_keys = UnqualifiedProviderPublicKeys { ed25519: Some(&unqualified_key), p256: None };
    assert!(matches!(
        yaml_sigil::provider_input::verify_with_unqualified_provider_and_resource_limits(
            &artifact,
            ArtifactForm::Yaml,
            &unqualified_keys,
            VerifierOptions::default(),
            &exact,
            &MapParser,
        )
        .unwrap(),
        Ok(VerifierState::Verified { .. })
    ));
    assert!(matches!(
        verify_with_unqualified_provider_and_metadata_and_resource_limits(
            &artifact,
            ArtifactForm::Yaml,
            &unqualified_keys,
            VerifierOptions::default(),
            true,
            &exact,
            &MapParser,
        )
        .unwrap()
        .unwrap()
        .state,
        VerifierState::Verified { .. }
    ));
}
