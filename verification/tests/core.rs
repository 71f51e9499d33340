use std::collections::BTreeMap;

use yaml_sigil::algorithm::{AlgorithmId, SCHEMA_V1ALPHA1};
use yaml_sigil::conformance::OuterConformance;
use yaml_sigil::decomposition::{decompose_artifact, DecompositionOutcome};
use yaml_sigil::error::CoreError;
use yaml_sigil::payload::{validate_payload_stream, PayloadInvariantError};
use yaml_sigil::pb::{SignedYamlArtifact, SignedYamlArtifactRef, YamlSigilSignature, YamlSigilSignatureRef};
use yaml_sigil::pb_error::{
    check_encoded_message_size, DecodeError, DecodeErrorKind, EncodeError, EncodeErrorKind,
    MAX_MESSAGE_BYTES,
};
use yaml_sigil::proto_outer::{
    compose_proto_outer, compose_proto_outer_with_resource_limits, decompose_proto_outer,
    decompose_proto_outer_with_resource_limits, ProtoOuterDecomposeOutcome,
};
use yaml_sigil::resource::{
    ArtifactResourceError, ArtifactResourceErrorKind, ArtifactResourceForm, ArtifactResourceLimits,
    DEFAULT_MAX_ARTIFACT_BYTES,
};
use yaml_sigil::signature_doc::{
    check_signature_document_count, serialize_signature_document, signature_document_text,
    has_unknown_signature_document_fields, signature_document_top_level_keys, SignatureDocument,
    SIGNATURE_DOCUMENT_MAX_BYTES,
};
use yaml_sigil::wire::{
    decode_signed_yaml_artifact, decode_signed_yaml_artifact_with_resource_limits,
    encode_signed_yaml_artifact, encode_signed_yaml_artifact_with_resource_limits,
    view_signed_yaml_artifact,
};

fn finite(maximum: usize) -> ArtifactResourceLimits {
    ArtifactResourceLimits::unbounded().with_max_artifact_bytes(maximum)
}

fn assert_send_sync<T: Send + Sync>() {}

/// Read a canonical carrier back into a signature document with a plain
/// YAML mapping parse.
fn read_back(carrier: &str) -> SignatureDocument {
    let map: BTreeMap<String, String> = noyalib::from_str(carrier).unwrap();
    for key in map.keys() {
        assert!(["schema", "alg", "keyid", "signature"].contains(&key.as_str()), "{key}");
    }
    SignatureDocument {
        schema: map["schema"].clone(),
        alg: map["alg"].clone(),
        keyid: map.get("keyid").cloned(),
        signature: map["signature"].clone(),
    }
}

// ---- decomposition ----

#[test]
fn empty_unsigned() {
    assert_eq!(decompose_artifact(b""), DecompositionOutcome::Unsigned);
}

#[test]
fn no_marker_unsigned() {
    assert_eq!(decompose_artifact(b"hello: world\n"), DecompositionOutcome::Unsigned);
}

#[test]
fn bom_malformed() {
    let mut v = vec![0xEF, 0xBB, 0xBF];
    v.extend_from_slice(b"a: 1\n");
    assert_eq!(decompose_artifact(&v), DecompositionOutcome::Malformed);
}

#[test]
fn signed_split() {
    let a = b"foo: bar\n---\nschema: YamlSigilSignature.v1alpha1\n\
              alg: ED25519_PUREEDDSA_RAW_RS64_CANONICAL\nsignature: eA\n";
    let r = decompose_artifact(a);
    match r {
        DecompositionOutcome::Signed(s) => {
            assert_eq!(&a[s.payload], b"foo: bar\n");
            assert_eq!(
                &a[s.signature_document],
                b"---\nschema: YamlSigilSignature.v1alpha1\n\
                  alg: ED25519_PUREEDDSA_RAW_RS64_CANONICAL\nsignature: eA\n"
            );
            assert_eq!(
                &a[s.signature_carrier],
                b"schema: YamlSigilSignature.v1alpha1\n\
                  alg: ED25519_PUREEDDSA_RAW_RS64_CANONICAL\nsignature: eA\n"
            );
        }
        _ => panic!("{r:?}"),
    }
}

#[test]
fn last_marker_defines_signature_document() {
    let a = b"foo: bar\n---\nintermediate: document\n---\nschema: \
              YamlSigilSignature.v1alpha1\nalg: \
              ED25519_PUREEDDSA_RAW_RS64_CANONICAL\nsignature: eA\n";
    let expected_marker = a
        .windows(4)
        .rposition(|window| window == b"---\n")
        .expect("fixture contains markers");
    let r = decompose_artifact(a);
    match r {
        DecompositionOutcome::Signed(s) => {
            assert_eq!(s.payload.end, expected_marker);
            assert_eq!(s.signature_document.start, expected_marker);
            assert_eq!(s.signature_carrier.start, expected_marker + 4);
        }
        _ => panic!("{r:?}"),
    }
}

#[test]
fn crlf_marker_splits_and_lone_marker_without_carrier_is_malformed() {
    let a = b"k: v\r\n---\r\nschema: x\n";
    match decompose_artifact(a) {
        DecompositionOutcome::Signed(s) => {
            assert_eq!(&a[s.payload], b"k: v\r\n");
            assert_eq!(&a[s.signature_carrier], b"schema: x\n");
        }
        r => panic!("{r:?}"),
    }
    assert_eq!(decompose_artifact(b"k: v\n---\n"), DecompositionOutcome::Malformed);
    assert_eq!(decompose_artifact(b"\xff\n---\nx\n"), DecompositionOutcome::Malformed);
}

// ---- errors and payload rules ----

#[test]
fn display_messages() {
    assert!(CoreError::InvalidUtf8.message().contains("UTF-8"));
    assert!(CoreError::ProtobufDecode("x".into()).message().contains("protobuf"));
    assert!(CoreError::SignatureYaml("y".into()).message().contains("YAML"));
    assert!(CoreError::InvalidBase64.message().contains("base64"));
    assert!(CoreError::SchemaMismatch.message().contains("schema"));
    assert!(CoreError::EmptySignature.message().contains("empty"));
}

#[test]
fn empty_ok() {
    validate_payload_stream(b"").unwrap();
}

#[test]
fn needs_trailing_newline() {
    assert_eq!(
        validate_payload_stream(b"a: 1"),
        Err(PayloadInvariantError::MissingTrailingLineTerminator)
    );
    validate_payload_stream(b"a: 1\n").unwrap();
}

#[test]
fn payload_rules_report_each_violation() {
    assert_eq!(validate_payload_stream(b"\xff\n"), Err(PayloadInvariantError::InvalidUtf8));
    assert_eq!(
        validate_payload_stream(b"\xEF\xBB\xBFa\n"),
        Err(PayloadInvariantError::BomAtOffset0)
    );
    assert_eq!(validate_payload_stream(b"a\r\n"), Ok(()));
    assert_eq!(
        PayloadInvariantError::BomAtOffset0.message(),
        "payload must not start with a UTF-8 BOM"
    );
}

// ---- protobuf outer envelope ----

#[test]
fn roundtrip_opaque_carrier() {
    let inner = YamlSigilSignature::new(AlgorithmId::Ed25519, vec![1, 2, 3]).encode_to_vec().unwrap();
    let wire = compose_proto_outer(b"k: v\n", &inner);
    match decompose_proto_outer(&wire, OuterConformance::Strict) {
        ProtoOuterDecomposeOutcome::Decomposed { payload, signature_carrier } => {
            assert_eq!(payload, b"k: v\n");
            assert_eq!(signature_carrier, inner);
        }
        o => panic!("{o:?}"),
    }
}

#[test]
fn duplicate_signature_rejected() {
    let mut wire = compose_proto_outer(b"p\n", b"a");
    let second = compose_proto_outer(&[], b"b");
    wire.extend_from_slice(&second[2..]);
    assert_eq!(
        decompose_proto_outer(&wire, OuterConformance::SignatureStrict),
        ProtoOuterDecomposeOutcome::Malformed
    );
}

#[test]
fn missing_signature_malformed() {
    let only_payload = compose_proto_outer(b"p\n", &[])[..4].to_vec();
    assert_eq!(
        decompose_proto_outer(&only_payload, OuterConformance::Strict),
        ProtoOuterDecomposeOutcome::Malformed
    );
}

#[test]
fn resource_limit_precedes_malformed_wire_and_mode_processing() {
    let limits = ArtifactResourceLimits::unbounded().with_max_artifact_bytes(1);
    let error = decompose_proto_outer_with_resource_limits(&[0xff, 0xff], OuterConformance::Strict, &limits)
        .unwrap_err();
    assert_eq!(error.kind(), ArtifactResourceErrorKind::InputArtifactTooLarge);
    assert_eq!(error.artifact_form(), Some(ArtifactResourceForm::Protobuf));
}

#[test]
fn resource_aware_raw_composition_checks_the_exact_output_boundary() {
    let expected = compose_proto_outer(b"payload", b"carrier");
    let exact = ArtifactResourceLimits::unbounded().with_max_artifact_bytes(expected.len());
    assert_eq!(
        compose_proto_outer_with_resource_limits(b"payload", b"carrier", &exact).unwrap().unwrap(),
        expected
    );

    let too_small = ArtifactResourceLimits::unbounded().with_max_artifact_bytes(expected.len() - 1);
    let error = compose_proto_outer_with_resource_limits(b"payload", b"carrier", &too_small).unwrap_err();
    assert_eq!(error.observed_or_projected_artifact_bytes(), Some(expected.len()));
}

#[test]
fn outer_envelope_wire_is_payload_field_then_signature_field() {
    assert_eq!(compose_proto_outer(b"ab", b"c"), vec![0x0a, 2, b'a', b'b', 0x12, 1, b'c']);
    assert_eq!(compose_proto_outer(b"", b""), vec![0x0a, 0, 0x12, 0]);
    let mut with_unknown = compose_proto_outer(b"p", b"s");
    with_unknown.extend_from_slice(&[0x18, 0x01]);
    assert_eq!(
        decompose_proto_outer(&with_unknown, OuterConformance::Strict),
        ProtoOuterDecomposeOutcome::Malformed
    );
    assert_eq!(
        decompose_proto_outer(&with_unknown, OuterConformance::SignatureStrict),
        ProtoOuterDecomposeOutcome::Decomposed { payload: b"p".to_vec(), signature_carrier: b"s".to_vec() }
    );
}

// ---- resource policy ----

#[test]
fn public_resource_types_are_send_and_sync() {
    assert_send_sync::<ArtifactResourceLimits>();
    assert_send_sync::<ArtifactResourceForm>();
    assert_send_sync::<ArtifactResourceErrorKind>();
    assert_send_sync::<ArtifactResourceError>();
}

#[test]
fn default_is_exactly_four_mib() {
    assert_eq!(DEFAULT_MAX_ARTIFACT_BYTES, 4_194_304);
    assert_eq!(ArtifactResourceLimits::default().max_artifact_bytes(), Some(4_194_304));
}

#[test]
fn finite_policy_accepts_boundary_and_rejects_one_over() {
    let limits = finite(3);
    assert_eq!(limits.check_output_size(ArtifactResourceForm::Yaml, 3).unwrap(), 3);
    let error = limits.check_output_size(ArtifactResourceForm::Yaml, 4).unwrap_err();
    assert_eq!(error.kind(), ArtifactResourceErrorKind::OutputArtifactTooLarge);
    assert_eq!(error.configured_max_artifact_bytes(), Some(3));
    assert_eq!(error.observed_or_projected_artifact_bytes(), Some(4));
}

#[test]
fn one_byte_is_the_smallest_finite_policy() {
    let limits = finite(1);
    assert!(limits.check_input_size(ArtifactResourceForm::Protobuf, &[0]).is_ok());
    assert!(limits.check_input_size(ArtifactResourceForm::Protobuf, &[0, 1]).is_err());
    assert!(std::num::NonZeroUsize::new(0).is_none());
}

#[test]
fn builders_replace_and_remove_only_the_byte_limit() {
    let lower = finite(2);
    assert!(lower.check_output_size(ArtifactResourceForm::Yaml, 3).is_err());
    let limits = lower.with_max_artifact_bytes(9);
    assert_eq!(limits.max_artifact_bytes(), Some(9));
    assert_eq!(limits.check_output_size(ArtifactResourceForm::Yaml, 3).unwrap(), 3);
    assert_eq!(limits.without_max_artifact_byte_limit().max_artifact_bytes(), None);
    assert!(ArtifactResourceLimits::unbounded()
        .check_output_size(ArtifactResourceForm::Protobuf, usize::MAX)
        .is_ok());
}

#[test]
fn input_filter_is_zero_copy_and_reports_exact_size() {
    let bytes = b"same allocation";
    let admitted = ArtifactResourceLimits::unbounded()
        .check_input_size(ArtifactResourceForm::Yaml, bytes)
        .unwrap();
    assert_eq!(admitted.as_ptr(), bytes.as_ptr());
    assert_eq!(admitted.len(), bytes.len());

    let error = finite(bytes.len() - 1).check_input_size(ArtifactResourceForm::Yaml, bytes).unwrap_err();
    assert_eq!(error.kind(), ArtifactResourceErrorKind::InputArtifactTooLarge);
    assert_eq!(error.observed_or_projected_artifact_bytes(), Some(bytes.len()));
}

#[test]
fn lower_bound_rejection_does_not_claim_an_exact_size() {
    let limits = finite(4);
    assert_eq!(limits.check_output_size_lower_bound(ArtifactResourceForm::Yaml, 4).unwrap(), 4);
    let error = limits.check_output_size_lower_bound(ArtifactResourceForm::Yaml, 5).unwrap_err();
    assert_eq!(error.kind(), ArtifactResourceErrorKind::OutputArtifactTooLarge);
    assert_eq!(error.configured_max_artifact_bytes(), Some(4));
    assert_eq!(error.observed_or_projected_artifact_bytes(), None);
}

#[test]
fn overflow_is_reported_even_for_unbounded_policy() {
    let error = ArtifactResourceLimits::unbounded().size_computation_overflow(ArtifactResourceForm::Protobuf);
    assert_eq!(error.kind(), ArtifactResourceErrorKind::SizeComputationOverflow);
    assert_eq!(error.configured_max_artifact_bytes(), None);
    assert_eq!(error.observed_or_projected_artifact_bytes(), None);
}

#[test]
fn errors_are_content_free_and_have_no_source() {
    let secret = "payload-secret-never-retained";
    let error = finite(secret.len() - 1)
        .check_input_size(ArtifactResourceForm::Yaml, secret.as_bytes())
        .unwrap_err();
    let debug = format!("{error:?}");
    let display = error.message();
    assert!(!debug.contains(secret));
    assert!(!display.contains(secret));
}

// ---- signature documents ----

fn document(alg: &str, keyid: Option<&str>, signature: &str) -> SignatureDocument {
    SignatureDocument {
        schema: SCHEMA_V1ALPHA1.into(),
        alg: alg.into(),
        keyid: keyid.map(|k| k.into()),
        signature: signature.into(),
    }
}

#[test]
fn validate_schema_rejects_wrong_schema() {
    let doc = SignatureDocument {
        schema: "wrong".into(),
        alg: "ED25519_PUREEDDSA_RAW_RS64_CANONICAL".into(),
        keyid: None,
        signature: "Zm9v".into(),
    };
    assert!(doc.validate_schema().is_err());
}

#[test]
fn top_level_key_scan_rejects_input_over_byte_budget() {
    let oversized = vec![b'x'; SIGNATURE_DOCUMENT_MAX_BYTES + 1];
    let err = signature_document_top_level_keys(&oversized).unwrap_err();
    assert!(matches!(err, CoreError::SignatureYaml(_)));
}

#[test]
fn serialize_uses_canonical_carrier() {
    let doc = document("ED25519_PUREEDDSA_RAW_RS64_CANONICAL", Some("kid-\"1\""), "eA");
    let carrier = serialize_signature_document(&doc).unwrap();
    assert_eq!(
        carrier,
        "schema: YamlSigilSignature.v1alpha1\n\
         alg: ED25519_PUREEDDSA_RAW_RS64_CANONICAL\n\
         keyid: \"kid-\\\"1\\\"\"\n\
         signature: eA\n"
    );
    assert_eq!(read_back(&carrier), doc);
}

#[test]
fn serialize_rejects_noncanonical_schema_and_algorithm() {
    let mut doc = document("ED25519_PUREEDDSA_RAW_RS64_CANONICAL", None, "Zm9v");

    doc.schema = "YamlSigilSignature.v1alpha1\nkeyid: evil".into();
    let err = serialize_signature_document(&doc).unwrap_err();
    assert!(matches!(err, CoreError::SchemaMismatch));

    doc.schema = SCHEMA_V1ALPHA1.into();
    doc.alg = "ED25519_PUREEDDSA_RAW_RS64_CANONICAL\nkeyid: evil".into();
    let err = serialize_signature_document(&doc).unwrap_err();
    assert!(matches!(err, CoreError::SignatureYaml(_)));
}

#[test]
fn serialize_rejects_invalid_signature_base64_spellings() {
    for signature in ["Zm9v\nkeyid: evil", "Zm9v: evil", "Zm9v\"evil", "Zm9v #evil", " Zm9v", "Zm8=", "////", "Zh"] {
        let doc = document("ED25519_PUREEDDSA_RAW_RS64_CANONICAL", None, signature);
        let err = serialize_signature_document(&doc).unwrap_err();
        assert!(matches!(err, CoreError::InvalidBase64), "unexpected error for {signature:?}: {err:?}");
    }
}

#[test]
fn serialize_rejects_parsed_signature_field_injection() {
    let carrier = r#"schema: YamlSigilSignature.v1alpha1
alg: ED25519_PUREEDDSA_RAW_RS64_CANONICAL
signature: "Zm9v\nkeyid: \"evil\""
"#;
    let doc = read_back(carrier);
    assert_eq!(doc.keyid, None);
    assert_eq!(doc.signature, "Zm9v\nkeyid: \"evil\"");

    let err = serialize_signature_document(&doc).unwrap_err();
    assert!(matches!(err, CoreError::InvalidBase64));
}

#[test]
fn serialize_quotes_base64_that_is_not_a_plain_yaml_string() {
    for signature in ["", "true", "null", "1234"] {
        let doc = document("ED25519_PUREEDDSA_RAW_RS64_CANONICAL", None, signature);
        let carrier = serialize_signature_document(&doc).unwrap();
        assert!(
            carrier.ends_with(&format!("signature: \"{signature}\"\n")),
            "unexpected carrier for {signature:?}: {carrier:?}"
        );
        assert_eq!(read_back(&carrier), doc);
    }
}

#[test]
fn serialize_quotes_keyid_field_injection() {
    let doc = document("ED25519_PUREEDDSA_RAW_RS64_CANONICAL", Some("trusted\nsignature: evil"), "Zm9v");
    let carrier = serialize_signature_document(&doc).unwrap();
    assert!(carrier.contains("keyid: \"trusted\\nsignature: evil\"\n"));
    assert_eq!(read_back(&carrier), doc);
}

#[test]
fn serialize_accepts_both_canonical_algorithms() {
    for alg in ["ED25519_PUREEDDSA_RAW_RS64_CANONICAL", "ECDSA_SECP256R1_SHA256_RAW_RS64"] {
        let doc = document(alg, None, "Zm9v");
        let carrier = serialize_signature_document(&doc).unwrap();
        assert!(carrier.contains(&format!("alg: {alg}\n")));
        assert!(carrier.ends_with("signature: Zm9v\n"));
        assert_eq!(read_back(&carrier), doc);
    }
}

#[test]
fn top_level_keys_are_listed_once_in_order() {
    let keys = signature_document_top_level_keys(
        b"schema: x\nalg: y\n  nested: z\nsignature: s\nschema: again\n# note\n",
    )
    .unwrap();
    assert_eq!(keys, vec!["schema".to_string(), "alg".to_string(), "signature".to_string()]);
    assert!(matches!(signature_document_top_level_keys(b"\xff"), Err(CoreError::InvalidUtf8)));
}

#[test]
fn signature_document_text_checks_budget_before_utf8() {
    let mut oversized = vec![b'x'; SIGNATURE_DOCUMENT_MAX_BYTES + 1];
    oversized[SIGNATURE_DOCUMENT_MAX_BYTES] = 0xff;
    assert!(matches!(signature_document_text(&oversized), Err(CoreError::SignatureYaml(_))));
    assert_eq!(signature_document_text(&[0xff, 0xfe]), Err(CoreError::InvalidUtf8));
    assert_eq!(signature_document_text(b"alg: x\n"), Ok("alg: x\n".to_string()));
    let exact = vec![b'#'; SIGNATURE_DOCUMENT_MAX_BYTES];
    assert!(signature_document_text(&exact).is_ok());
}

#[test]
fn exactly_one_document_is_required() {
    assert_eq!(check_signature_document_count(Ok(1)), Ok(()));
    assert_eq!(
        check_signature_document_count(Ok(2)),
        Err(CoreError::SignatureYaml("signature carrier must contain exactly one YAML document".into()))
    );
    assert_eq!(check_signature_document_count(Ok(0)).is_err(), true);
    assert_eq!(
        check_signature_document_count(Err("bad".into())),
        Err(CoreError::SignatureYaml("bad".into()))
    );
}

// ---- wire helpers ----

#[test]
fn decode_rejects_garbage() {
    assert!(decode_signed_yaml_artifact(b"\xff\x0a\x99").is_err());
}

#[test]
fn view_requires_signature_submessage() {
    let a = SignedYamlArtifact::default();
    let err = view_signed_yaml_artifact(&a).unwrap_err();
    assert!(matches!(err, CoreError::ProtobufDecode(_)));
}

#[test]
fn encode_signed_yaml_artifact_then_decode_matches() {
    let inner = YamlSigilSignature::new(AlgorithmId::Ed25519, vec![1, 2, 3]);
    let outer = SignedYamlArtifact::new(b"ok\n".to_vec(), Some(inner));
    let bytes = encode_signed_yaml_artifact(&outer).unwrap();
    let decoded = decode_signed_yaml_artifact(&bytes).unwrap();
    let v = view_signed_yaml_artifact(&decoded).unwrap();
    assert_eq!(v.payload, b"ok\n");
    assert_eq!(v.alg_wire, 1);
    assert_eq!(v.signature, [1, 2, 3]);
    assert!(v.keyid.is_none());
}

#[test]
fn resource_aware_wire_helpers_preserve_the_nested_error_layer() {
    let inner = YamlSigilSignature::new(AlgorithmId::Ed25519, vec![1, 2, 3]);
    let outer = SignedYamlArtifact::new(b"ok\n".to_vec(), Some(inner));
    let bytes = encode_signed_yaml_artifact(&outer).unwrap();
    let limits = ArtifactResourceLimits::unbounded().with_max_artifact_bytes(bytes.len());

    assert_eq!(encode_signed_yaml_artifact_with_resource_limits(&outer, &limits).unwrap().unwrap(), bytes);
    assert_eq!(decode_signed_yaml_artifact_with_resource_limits(&bytes, &limits).unwrap().unwrap(), outer);

    let too_small = ArtifactResourceLimits::unbounded().with_max_artifact_bytes(bytes.len() - 1);
    assert!(encode_signed_yaml_artifact_with_resource_limits(&outer, &too_small).is_err());
    assert!(decode_signed_yaml_artifact_with_resource_limits(&bytes, &too_small).is_err());
}

// ---- protobuf messages ----

#[test]
fn public_message_types_are_send_and_sync() {
    assert_send_sync::<DecodeErrorKind>();
    assert_send_sync::<DecodeError>();
    assert_send_sync::<EncodeErrorKind>();
    assert_send_sync::<EncodeError>();
    assert_send_sync::<SignedYamlArtifact>();
    assert_send_sync::<YamlSigilSignature>();
    assert_send_sync::<SignedYamlArtifactRef<'static>>();
    assert_send_sync::<YamlSigilSignatureRef<'static>>();
}

#[test]
fn public_format_size_check_is_exact_at_the_ceiling() {
    let maximum = usize::try_from(MAX_MESSAGE_BYTES).unwrap();
    assert_eq!(check_encoded_message_size(maximum), Ok(maximum));
    assert_eq!(check_encoded_message_size(maximum + 1).unwrap_err().kind(), EncodeErrorKind::MessageTooLarge);
}

#[test]
fn encode_error_message_names_the_ceiling() {
    let error = EncodeError::message_too_large();
    assert_eq!(error.message(), "protobuf encode failed: message exceeds the protobuf size ceiling");
}

#[test]
fn quoted_top_level_keys_compare_by_their_value() {
    assert!(matches!(has_unknown_signature_document_fields(b"\"schema\": a\n"), Ok(false)));
    assert!(matches!(has_unknown_signature_document_fields(b"'alg': x\nkeyid: k\n"), Ok(false)));
    assert!(matches!(has_unknown_signature_document_fields(b"\"other\": 1\n"), Ok(true)));
    assert!(matches!(has_unknown_signature_document_fields(b"\"a:b\": 1\n"), Ok(true)));
    let keys = signature_document_top_level_keys(b"\"schema\": a\n'alg' : b\n").unwrap();
    assert!(keys.contains(&"schema".to_string()));
    assert!(keys.contains(&"alg".to_string()));
    assert_eq!(keys.len(), 2);
}
