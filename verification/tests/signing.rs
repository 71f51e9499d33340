use std::collections::BTreeMap;

use base64::Engine as _;
use yaml_sigil::algorithm::AlgorithmId;
use yaml_sigil::error::CoreError;
use yaml_sigil::pb::YamlSigilSignature;
use yaml_sigil::pb_error::{EncodeError, EncodeErrorKind};
use yaml_sigil::proto_outer::compose_proto_outer;
use yaml_sigil::resource::{ArtifactResourceError, ArtifactResourceErrorKind, ArtifactResourceForm, ArtifactResourceLimits};
use yaml_sigil::sign::{
    checked_proto_signing_size_from_lengths, checked_yaml_signing_lower_bound, normalize_yaml_payload, sign,
    sign_proto, sign_proto_with_resource_limits, sign_with_resource_limits, sign_yaml,
    sign_yaml_with_resource_limits, OutputForm, SignError, SignInvocationError, SignOutcome, SignProtoParams,
    SignRequest, SignYamlParams, SigningKey,
};
use yaml_sigil::signature_doc::SignatureDocument;
use yaml_sigil::transcode::{
    proto_wire_from_signature_document, proto_wire_from_signature_document_with_resource_limits,
    proto_wire_to_signed_yaml_stream, proto_wire_to_signed_yaml_stream_with_resource_limits, yaml_to_proto_split,
    TranscodeError,
};
use yaml_sigil::verify_input::SignatureDocumentParser;
use yaml_sigil::wire::{decode_signed_yaml_artifact, view_signed_yaml_artifact};

fn finite(maximum: usize) -> ArtifactResourceLimits {
    ArtifactResourceLimits::unbounded().with_max_artifact_bytes(maximum)
}

fn ed25519(seed: u8) -> SigningKey {
    SigningKey::Ed25519(vec![seed; 32])
}

fn checked_proto_signing_size(request: &SignRequest<'_>) -> usize {
    checked_proto_signing_size_from_lengths(
        request.payload.len() as u64,
        request.keyid.map(|k| k.len() as u64),
        &ArtifactResourceLimits::unbounded(),
    )
    .unwrap()
    .unwrap()
}

/// Parse a signature carrier as a plain YAML mapping of strings.
fn parse_document(carrier: &[u8]) -> Result<SignatureDocument, CoreError> {
    let text = std::str::from_utf8(carrier).map_err(|_| CoreError::InvalidUtf8)?;
    let map: BTreeMap<String, String> =
        noyalib::from_str(text).map_err(|e| CoreError::SignatureYaml(e.to_string()))?;
    let field = |name: &str| map.get(name).cloned().ok_or_else(|| CoreError::SignatureYaml(name.into()));
    Ok(SignatureDocument {
        schema: field("schema")?,
        alg: field("alg")?,
        keyid: map.get("keyid").cloned(),
        signature: field("signature")?,
    })
}

struct DocumentParser;

impl SignatureDocumentParser for DocumentParser {
    fn parse_signature_document(&self, carrier: &[u8]) -> Result<SignatureDocument, CoreError> {
        parse_document(carrier)
    }
}

fn signed_yaml_stream_to_proto_wire(yaml: &[u8]) -> Result<Vec<u8>, TranscodeError> {
    yaml_sigil::transcode::signed_yaml_stream_to_proto_wire(yaml, &DocumentParser)
        .expect("the composed artifact length fits in usize")
}

fn signed_yaml_stream_to_proto_wire_with_resource_limits(
    yaml: &[u8],
    limits: &ArtifactResourceLimits,
) -> Result<Result<Result<Vec<u8>, TranscodeError>, EncodeError>, ArtifactResourceError> {
    yaml_sigil::transcode::signed_yaml_stream_to_proto_wire_with_resource_limits(yaml, limits, &DocumentParser)
}

#[test]
fn signer_rejects_line_break_in_keyid() {
    let sk = ed25519(5);
    for keyid in ["kid\nsuffix", "kid\rsuffix"] {
        let req = SignRequest {
            payload: b"a: b\n",
            algorithm: AlgorithmId::Ed25519,
            key: &sk,
            keyid: Some(keyid),
            append_missing_final_newline: false,
            output_form: OutputForm::Yaml,
            algorithm_parameters: &[],
        };
        assert!(matches!(sign(&req), SignOutcome::Invocation(SignInvocationError::InvalidKeyid)));
    }
}

#[test]
fn bounded_signing_preserves_request_shape_precedence() {
    let sk = ed25519(8);
    let request = SignRequest {
        payload: &[0xff; 16],
        algorithm: AlgorithmId::Ed25519,
        key: &sk,
        keyid: None,
        append_missing_final_newline: false,
        output_form: OutputForm::Yaml,
        algorithm_parameters: &[1],
    };
    assert!(matches!(
        sign_with_resource_limits(&request, &finite(1)).unwrap().unwrap(),
        SignOutcome::Invocation(SignInvocationError::InvalidAlgorithmParameters)
    ));
}

#[test]
fn bounded_signing_defers_keyid_content_and_payload_validation() {
    let sk = ed25519(9);
    for output_form in [OutputForm::Yaml, OutputForm::Protobuf] {
        let request = SignRequest {
            payload: &[0xff; 16],
            algorithm: AlgorithmId::Ed25519,
            key: &sk,
            keyid: Some("line\nbreak"),
            append_missing_final_newline: false,
            output_form,
            algorithm_parameters: &[],
        };
        let error = sign_with_resource_limits(&request, &finite(1)).unwrap_err();
        assert_eq!(error.kind(), ArtifactResourceErrorKind::OutputArtifactTooLarge);
        assert_eq!(
            error.artifact_form(),
            Some(match output_form {
                OutputForm::Yaml => ArtifactResourceForm::Yaml,
                OutputForm::Protobuf => ArtifactResourceForm::Protobuf,
            })
        );
        assert_eq!(
            error.observed_or_projected_artifact_bytes(),
            match output_form {
                OutputForm::Yaml => None,
                OutputForm::Protobuf => Some(checked_proto_signing_size(&request)),
            }
        );

        assert!(matches!(
            sign_with_resource_limits(&request, &ArtifactResourceLimits::unbounded()).unwrap().unwrap(),
            SignOutcome::Invocation(SignInvocationError::InvalidKeyid)
        ));
    }
}

#[test]
fn protobuf_signing_projection_matches_emission_at_varint_boundaries() {
    let sk = ed25519(10);
    for payload_len in [0, 1, 127, 128, 16_383, 16_384] {
        let payload = vec![0xa5; payload_len];
        for keyid in [None, Some("key")] {
            let request = SignRequest {
                payload: &payload,
                algorithm: AlgorithmId::Ed25519,
                key: &sk,
                keyid,
                append_missing_final_newline: false,
                output_form: OutputForm::Protobuf,
                algorithm_parameters: &[],
            };
            let projected = checked_proto_signing_size(&request);
            let outcome = sign_with_resource_limits(&request, &finite(projected)).unwrap().unwrap();
            let artifact = match outcome {
                SignOutcome::Success(success) => success.artifact,
                other => panic!("{other:?}"),
            };
            assert_eq!(artifact.len(), projected);
        }
    }

    let p256_key = SigningKey::EcdsaP256Sha256(vec![13u8; 32]);
    for payload_len in [0, 127, 128] {
        let payload = vec![0x5a; payload_len];
        let request = SignRequest {
            payload: &payload,
            algorithm: AlgorithmId::EcdsaP256Sha256,
            key: &p256_key,
            keyid: Some("p256-key"),
            append_missing_final_newline: false,
            output_form: OutputForm::Protobuf,
            algorithm_parameters: &[],
        };
        let projected = checked_proto_signing_size(&request);
        let outcome = sign_with_resource_limits(&request, &finite(projected)).unwrap().unwrap();
        let artifact = match outcome {
            SignOutcome::Success(success) => success.artifact,
            other => panic!("{other:?}"),
        };
        assert_eq!(artifact.len(), projected);
    }
}

#[test]
fn protobuf_signing_preserves_resource_then_format_precedence() {
    let payload_len = u64::try_from(i32::MAX).unwrap();
    let resource_error = checked_proto_signing_size_from_lengths(payload_len, None, &finite(1)).unwrap_err();
    assert_eq!(resource_error.kind(), ArtifactResourceErrorKind::OutputArtifactTooLarge);

    let format_error =
        checked_proto_signing_size_from_lengths(payload_len, None, &ArtifactResourceLimits::unbounded())
            .unwrap()
            .unwrap_err();
    assert_eq!(format_error.kind(), EncodeErrorKind::MessageTooLarge);
}

#[test]
fn protobuf_signing_reports_exact_output_rejection() {
    let sk = ed25519(11);
    let params = SignProtoParams {
        payload: b"opaque payload",
        algorithm: AlgorithmId::Ed25519,
        key: &sk,
        keyid: Some("key"),
        append_missing_final_newline: false,
    };
    let artifact = sign_proto(&params).unwrap();
    assert!(sign_proto_with_resource_limits(&params, &finite(artifact.len())).unwrap().unwrap().is_ok());
    let error = sign_proto_with_resource_limits(&params, &finite(artifact.len() - 1)).unwrap_err();
    assert_eq!(error.kind(), ArtifactResourceErrorKind::OutputArtifactTooLarge);
    assert_eq!(error.observed_or_projected_artifact_bytes(), Some(artifact.len()));
}

#[test]
fn yaml_signing_uses_lower_bound_then_final_exact_size() {
    let sk = ed25519(12);
    let request = SignRequest {
        payload: b"key: value",
        algorithm: AlgorithmId::Ed25519,
        key: &sk,
        keyid: Some("quoted\"key"),
        append_missing_final_newline: true,
        output_form: OutputForm::Yaml,
        algorithm_parameters: &[],
    };
    let minimum = checked_yaml_signing_lower_bound(&request, &ArtifactResourceLimits::unbounded()).unwrap();
    let artifact = match sign(&request) {
        SignOutcome::Success(success) => success.artifact,
        other => panic!("{other:?}"),
    };
    assert!(minimum < artifact.len());
    assert!(artifact.starts_with(b"key: value\n---\n"));

    let early = sign_with_resource_limits(&request, &finite(minimum - 1)).unwrap_err();
    assert_eq!(early.observed_or_projected_artifact_bytes(), None);

    let exact = sign_with_resource_limits(&request, &finite(artifact.len() - 1)).unwrap_err();
    assert_eq!(exact.observed_or_projected_artifact_bytes(), Some(artifact.len()));
    assert!(matches!(
        sign_with_resource_limits(&request, &finite(artifact.len())).unwrap().unwrap(),
        SignOutcome::Success(_)
    ));

    let params = SignYamlParams {
        payload: request.payload,
        algorithm: request.algorithm,
        key: request.key,
        keyid: request.keyid,
        append_missing_final_newline: request.append_missing_final_newline,
    };
    assert_eq!(sign_yaml_with_resource_limits(&params, &finite(artifact.len())).unwrap().unwrap(), artifact);
}

#[test]
fn unified_sign_matches_wrappers() {
    let sk = ed25519(3);
    let payload = b"x: y\n";
    let yaml_req = SignRequest {
        payload,
        algorithm: AlgorithmId::Ed25519,
        key: &sk,
        keyid: None,
        append_missing_final_newline: false,
        output_form: OutputForm::Yaml,
        algorithm_parameters: &[],
    };
    let proto_req = SignRequest {
        payload,
        algorithm: AlgorithmId::Ed25519,
        key: &sk,
        keyid: None,
        append_missing_final_newline: false,
        output_form: OutputForm::Protobuf,
        algorithm_parameters: &[],
    };
    let y1 = sign_yaml(&SignYamlParams {
        payload,
        algorithm: AlgorithmId::Ed25519,
        key: &sk,
        keyid: None,
        append_missing_final_newline: false,
    })
    .unwrap();
    let y2 = match sign(&yaml_req) {
        SignOutcome::Success(s) => s.artifact,
        _ => panic!("expected success"),
    };
    assert_eq!(y1, y2);
    let p1 = sign_proto(&SignProtoParams {
        payload,
        algorithm: AlgorithmId::Ed25519,
        key: &sk,
        keyid: None,
        append_missing_final_newline: false,
    })
    .unwrap();
    let p2 = match sign(&proto_req) {
        SignOutcome::Success(s) => s.artifact,
        _ => panic!("expected success"),
    };
    assert_eq!(p1, p2);
}

#[test]
fn yaml_signing_appends_one_missing_newline_only_when_asked() {
    let sk = ed25519(14);
    let ask = |append: bool, payload: &'static [u8]| {
        sign(&SignRequest {
            payload,
            algorithm: AlgorithmId::Ed25519,
            key: &sk,
            keyid: None,
            append_missing_final_newline: append,
            output_form: OutputForm::Yaml,
            algorithm_parameters: &[],
        })
    };
    match ask(true, b"k: v") {
        SignOutcome::Success(s) => {
            assert_eq!(s.modified_payload, b"k: v\n");
            assert!(s.artifact.starts_with(b"k: v\n---\nschema: YamlSigilSignature.v1alpha1\n"));
        }
        other => panic!("{other:?}"),
    }
    match ask(true, b"k: v\n") {
        SignOutcome::Success(s) => assert!(s.modified_payload.is_empty()),
        other => panic!("{other:?}"),
    }
    assert!(matches!(ask(false, b"k: v"), SignOutcome::Signer(SignError::PayloadLineTerminatorRefusal)));
    assert!(matches!(ask(true, b"\xEF\xBB\xBFk\n"), SignOutcome::Signer(SignError::InvalidPayloadBytes)));
    assert_eq!(normalize_yaml_payload(b"", true), Ok(Vec::new()));
    assert_eq!(normalize_yaml_payload(b"a", true), Ok(b"a\n".to_vec()));
}

#[test]
fn mismatched_key_and_algorithm_is_an_invocation_error() {
    let sk = ed25519(15);
    let outcome = sign(&SignRequest {
        payload: b"k: v\n",
        algorithm: AlgorithmId::EcdsaP256Sha256,
        key: &sk,
        keyid: None,
        append_missing_final_newline: false,
        output_form: OutputForm::Protobuf,
        algorithm_parameters: &[],
    });
    assert!(matches!(outcome, SignOutcome::Invocation(SignInvocationError::InvalidOrUnsupportedAlgorithm)));
    let short = SigningKey::Ed25519(vec![1; 31]);
    let outcome = sign(&SignRequest {
        payload: b"k: v\n",
        algorithm: AlgorithmId::Ed25519,
        key: &short,
        keyid: Some(""),
        append_missing_final_newline: false,
        output_form: OutputForm::Protobuf,
        algorithm_parameters: &[],
    });
    assert!(matches!(outcome, SignOutcome::Invocation(SignInvocationError::InvalidKeyid)));
    let params = SignProtoParams {
        payload: b"k: v\n",
        algorithm: AlgorithmId::Ed25519,
        key: &short,
        keyid: None,
        append_missing_final_newline: false,
    };
    assert_eq!(sign_proto(&params), Err(SignError::KeyOperationFailure));
}

#[test]
fn ed25519_signatures_are_deterministic_and_match_dalek() {
    let sk = ed25519(21);
    let artifact = sign_proto(&SignProtoParams {
        payload: b"payload\n",
        algorithm: AlgorithmId::Ed25519,
        key: &sk,
        keyid: None,
        append_missing_final_newline: false,
    })
    .unwrap();
    let view = view_signed_yaml_artifact(&decode_signed_yaml_artifact(&artifact).unwrap()).unwrap();
    let expected = ed25519_dalek::Signer::sign(&ed25519_dalek::SigningKey::from_bytes(&[21; 32]), b"payload\n");
    assert_eq!(view.signature, expected.to_bytes().to_vec());
    assert_eq!(view.alg_wire, 1);
}

// ---- transcoding ----

fn add_signature_whitespace(artifact: &[u8]) -> Vec<u8> {
    let text = std::str::from_utf8(artifact).expect("signer emits UTF-8 YAML");
    let marker = "signature: ";
    let value_start = text.rfind(marker).expect("signature field") + marker.len();
    let value_end = value_start + text[value_start..].find('\n').expect("signature line terminator");
    let mut mutated = String::with_capacity(text.len() + 4);
    mutated.push_str(&text[..value_start]);
    mutated.push_str("\" ");
    mutated.push_str(&text[value_start..value_end]);
    mutated.push_str(" \"");
    mutated.push_str(&text[value_end..]);
    mutated.into_bytes()
}

fn assert_proto_yaml_proto_signature(signature_b64: &str, expected_yaml_line: &str) {
    let signature = base64::engine::general_purpose::URL_SAFE_NO_PAD
        .decode(signature_b64)
        .expect("test signature is canonical base64url");
    let carrier = YamlSigilSignature::new(AlgorithmId::Ed25519, signature.clone()).encode_to_vec().unwrap();
    let wire = compose_proto_outer(b"review: scalar\n", &carrier);

    let yaml = proto_wire_to_signed_yaml_stream(&wire).expect("transcode protobuf to YAML");
    let yaml_text = std::str::from_utf8(&yaml).expect("transcoder emits UTF-8 YAML");
    assert!(yaml_text.ends_with(expected_yaml_line), "unexpected YAML artifact: {yaml_text:?}");

    let round_trip = signed_yaml_stream_to_proto_wire(&yaml).expect("transcode YAML back to protobuf");
    let decoded = decode_signed_yaml_artifact(&round_trip).expect("decode protobuf artifact");
    let view = view_signed_yaml_artifact(&decoded).expect("view protobuf artifact");
    assert_eq!(view.payload, b"review: scalar\n");
    assert_eq!(view.signature, signature);
}

#[test]
fn yaml_to_proto_rejects_signature_whitespace() {
    let signing_key = ed25519(55);
    let artifact = sign_yaml(&SignYamlParams {
        payload: b"review: cyber55\n",
        algorithm: AlgorithmId::Ed25519,
        key: &signing_key,
        keyid: None,
        append_missing_final_newline: false,
    })
    .expect("sign baseline artifact");
    let mutated = add_signature_whitespace(&artifact);

    assert!(matches!(signed_yaml_stream_to_proto_wire(&mutated), Err(TranscodeError::InvalidSignatureBase64)));
}

#[test]
fn transcoding_checks_source_and_destination_independently() {
    let signing_key = ed25519(56);
    let yaml = sign_yaml(&SignYamlParams {
        payload: b"review: boundaries\n",
        algorithm: AlgorithmId::Ed25519,
        key: &signing_key,
        keyid: Some("key"),
        append_missing_final_newline: false,
    })
    .unwrap();
    let proto = signed_yaml_stream_to_proto_wire(&yaml).unwrap();
    assert!(proto.len() < yaml.len());

    let input_error = signed_yaml_stream_to_proto_wire_with_resource_limits(&yaml, &finite(yaml.len() - 1)).unwrap_err();
    assert_eq!(input_error.kind(), ArtifactResourceErrorKind::InputArtifactTooLarge);
    assert_eq!(input_error.artifact_form(), Some(ArtifactResourceForm::Yaml));

    let yaml_to_proto =
        signed_yaml_stream_to_proto_wire_with_resource_limits(&yaml, &finite(yaml.len())).unwrap().unwrap().unwrap();
    assert_eq!(yaml_to_proto, proto);

    let yaml_again = proto_wire_to_signed_yaml_stream(&proto).unwrap();
    assert!(yaml_again.len() > proto.len());
    let output_error =
        proto_wire_to_signed_yaml_stream_with_resource_limits(&proto, &finite(yaml_again.len() - 1)).unwrap_err();
    assert_eq!(output_error.kind(), ArtifactResourceErrorKind::OutputArtifactTooLarge);
    assert_eq!(output_error.artifact_form(), Some(ArtifactResourceForm::Yaml));
    assert_eq!(output_error.observed_or_projected_artifact_bytes(), Some(yaml_again.len()));

    let round_trip =
        proto_wire_to_signed_yaml_stream_with_resource_limits(&proto, &finite(yaml_again.len())).unwrap().unwrap();
    assert_eq!(round_trip, yaml_again);
}

#[test]
fn protobuf_transcode_input_rejection_precedes_malformed_wire() {
    let error = proto_wire_to_signed_yaml_stream_with_resource_limits(&[0xff, 0xff], &finite(1)).unwrap_err();
    assert_eq!(error.kind(), ArtifactResourceErrorKind::InputArtifactTooLarge);
    assert_eq!(error.artifact_form(), Some(ArtifactResourceForm::Protobuf));
}

#[test]
fn proto_yaml_proto_preserves_empty_signature() {
    assert_proto_yaml_proto_signature("", "signature: \"\"\n");
}

#[test]
fn proto_yaml_proto_preserves_yaml_ambiguous_signature() {
    assert_proto_yaml_proto_signature("true", "signature: \"true\"\n");
}

#[test]
fn transcoding_reports_each_failure() {
    assert!(matches!(proto_wire_to_signed_yaml_stream(b"\x0a\x01"), Err(TranscodeError::NotSignedYamlStream)));
    let bad_payload = compose_proto_outer(b"no newline", &YamlSigilSignature::new(AlgorithmId::Ed25519, vec![1]).encode_to_vec().unwrap());
    assert!(matches!(proto_wire_to_signed_yaml_stream(&bad_payload), Err(TranscodeError::PayloadInvariant)));
    let mut odd = YamlSigilSignature::new(AlgorithmId::Ed25519, vec![1]);
    odd.set_algorithm_wire_value(7);
    let wire = compose_proto_outer(b"k\n", &odd.encode_to_vec().unwrap());
    assert!(matches!(proto_wire_to_signed_yaml_stream(&wire), Err(TranscodeError::UnsupportedWireAlg)));
    let wire = compose_proto_outer(b"k\n", b"\x12\x01\xff");
    assert!(matches!(proto_wire_to_signed_yaml_stream(&wire), Err(TranscodeError::Core(CoreError::ProtobufDecode(_)))));

    assert!(matches!(yaml_to_proto_split(b"no marker\n"), Err(TranscodeError::NotSignedYamlStream)));
    let doc = |schema: &str, alg: &str, signature: &str| SignatureDocument {
        schema: schema.into(),
        alg: alg.into(),
        keyid: None,
        signature: signature.into(),
    };
    assert!(matches!(
        proto_wire_from_signature_document(b"k\n", Ok(doc("other", "ED25519_PUREEDDSA_RAW_RS64_CANONICAL", "AA"))),
        Err(TranscodeError::SchemaMismatch)
    ));
    assert!(matches!(
        proto_wire_from_signature_document(b"k\n", Ok(doc("YamlSigilSignature.v1alpha1", "RSA", "AA"))),
        Err(TranscodeError::UnknownYamlAlg)
    ));
    assert!(matches!(
        proto_wire_from_signature_document(b"k\n", Err(CoreError::InvalidUtf8)),
        Err(TranscodeError::Core(CoreError::InvalidUtf8))
    ));
    assert_eq!(
        TranscodeError::YamlSerialize("x".into()).message(),
        "YAML serialization failed: x"
    );
}
