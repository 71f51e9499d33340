use yaml_sigil::conformance::OuterConformance;
use yaml_sigil::pb_error::EncodeErrorKind;
use yaml_sigil::resource::{ArtifactResourceErrorKind, ArtifactResourceForm, ArtifactResourceLimits};
use yaml_sigil::transcription::{
    checked_proto_outer_size_from_lengths, compose, compose_with_resource_limits, decompose,
    decompose_with_resource_limits, resource_form, ComposeOutcome, ComposeRequest, DecomposeOutcome,
    DecomposeRequest, DecomposeResponse, TranscriberError, TranscriptionForm,
};

fn finite(maximum: usize) -> ArtifactResourceLimits {
    ArtifactResourceLimits::unbounded().with_max_artifact_bytes(maximum)
}

#[test]
fn resource_aware_compose_checks_exact_yaml_and_protobuf_boundaries() {
    for form in [TranscriptionForm::Yaml, TranscriptionForm::Protobuf] {
        let request = ComposeRequest {
            payload: b"payload\n",
            signature_carrier: b"carrier",
            form,
        };
        let unbounded =
            compose_with_resource_limits(&request, &ArtifactResourceLimits::unbounded())
                .unwrap()
                .unwrap();
        let expected = match unbounded {
            ComposeOutcome::Success(success) => success.artifact,
            other => panic!("{other:?}"),
        };
        let exact = compose_with_resource_limits(&request, &finite(expected.len()))
            .unwrap()
            .unwrap();
        assert!(matches!(exact, ComposeOutcome::Success(_)));

        let error =
            compose_with_resource_limits(&request, &finite(expected.len() - 1)).unwrap_err();
        assert_eq!(
            error.kind(),
            ArtifactResourceErrorKind::OutputArtifactTooLarge
        );
        assert_eq!(error.artifact_form(), Some(resource_form(form)));
        assert_eq!(
            error.observed_or_projected_artifact_bytes(),
            Some(expected.len())
        );
    }
}

#[test]
fn protobuf_compose_preserves_resource_then_format_precedence() {
    let payload_len = u64::try_from(i32::MAX).unwrap();
    let resource_error =
        checked_proto_outer_size_from_lengths(payload_len, 0, &finite(1)).unwrap_err();
    assert_eq!(
        resource_error.kind(),
        ArtifactResourceErrorKind::OutputArtifactTooLarge
    );

    let format_error = checked_proto_outer_size_from_lengths(
        payload_len,
        0,
        &ArtifactResourceLimits::unbounded(),
    )
    .unwrap()
    .unwrap_err();
    assert_eq!(
        format_error.kind(),
        EncodeErrorKind::MessageTooLarge
    );
}

#[test]
fn output_resource_rejection_precedes_component_validation() {
    let invalid_payload = [0xff; 8];
    let request = ComposeRequest {
        payload: &invalid_payload,
        signature_carrier: b"bad\n---\ncarrier",
        form: TranscriptionForm::Yaml,
    };
    let error = compose_with_resource_limits(&request, &finite(1)).unwrap_err();
    assert_eq!(
        error.kind(),
        ArtifactResourceErrorKind::OutputArtifactTooLarge
    );
}

#[test]
fn input_resource_rejection_precedes_outer_conformance_validation() {
    let request = DecomposeRequest {
        artifact: &[0xff, 0xff],
        form: TranscriptionForm::Yaml,
        outer_conformance: Some(OuterConformance::Strict),
    };
    let error = decompose_with_resource_limits(&request, &finite(1)).unwrap_err();
    assert_eq!(
        error.kind(),
        ArtifactResourceErrorKind::InputArtifactTooLarge
    );
    assert_eq!(error.artifact_form(), Some(ArtifactResourceForm::Yaml));
}

#[test]
fn yaml_compose_decompose_roundtrip() {
    let payload = b"k: v\n";
    let carrier =
        b"schema: YamlSigilSignature.v1alpha1\nalg: ED25519_PUREEDDSA_RAW_RS64_CANONICAL\nsignature: eA\n";
    let composed = match compose(&ComposeRequest {
        payload,
        signature_carrier: carrier,
        form: TranscriptionForm::Yaml,
    }) {
        ComposeOutcome::Success(s) => s.artifact,
        o => panic!("{o:?}"),
    };
    let resp = decompose(&DecomposeRequest {
        artifact: &composed,
        form: TranscriptionForm::Yaml,
        outer_conformance: None,
    });
    match resp {
        DecomposeResponse::Shape(r) => {
            assert_eq!(r.outcome, DecomposeOutcome::Recovered);
            assert_eq!(r.payload.as_deref(), Some(payload as &[u8]));
            assert_eq!(r.signature_carrier.as_deref(), Some(carrier as &[u8]));
        }
        DecomposeResponse::Invocation(e) => panic!("{e:?}"),
    }
}

#[test]
fn yaml_compose_rejects_marker_in_carrier() {
    let outcome = compose(&ComposeRequest {
        payload: b"k: v\n",
        signature_carrier: b"keyid: 'kid\n---\nschema: injected'\n",
        form: TranscriptionForm::Yaml,
    });
    assert!(matches!(
        outcome,
        ComposeOutcome::Error(TranscriberError::InvalidSignatureCarrier)
    ));
}

#[test]
fn yaml_compose_rejects_invalid_payload_bytes() {
    let invalid_payloads: [&[u8]; 3] = [
        &[0xff, 0x00, 0x80],
        b"\xef\xbb\xbfkey: value\n",
        b"missing final line terminator",
    ];

    for payload in invalid_payloads {
        let outcome = compose(&ComposeRequest {
            payload,
            signature_carrier: b"signature carrier",
            form: TranscriptionForm::Yaml,
        });
        assert!(matches!(
            outcome,
            ComposeOutcome::Error(TranscriberError::InvalidPayloadBytes)
        ));
    }
}

#[test]
fn protobuf_compose_preserves_arbitrary_payload_bytes() {
    let payloads: [&[u8]; 3] = [
        &[0xff, 0x00, 0x80],
        b"\xef\xbb\xbfkey: value\n",
        b"missing final line terminator",
    ];
    let signature_carrier = b"opaque signature carrier";

    for payload in payloads {
        let artifact = match compose(&ComposeRequest {
            payload,
            signature_carrier,
            form: TranscriptionForm::Protobuf,
        }) {
            ComposeOutcome::Success(success) => success.artifact,
            outcome => panic!("{outcome:?}"),
        };
        let response = decompose(&DecomposeRequest {
            artifact: &artifact,
            form: TranscriptionForm::Protobuf,
            outer_conformance: Some(OuterConformance::Strict),
        });

        match response {
            DecomposeResponse::Shape(result) => {
                assert_eq!(result.outcome, DecomposeOutcome::Recovered);
                assert_eq!(result.payload.as_deref(), Some(payload));
                assert_eq!(
                    result.signature_carrier.as_deref(),
                    Some(signature_carrier.as_slice())
                );
            }
            DecomposeResponse::Invocation(error) => panic!("{error:?}"),
        }
    }
}

fn write_varint(out: &mut Vec<u8>, mut v: u64) {
    while v >= 0x80 {
        out.push((v as u8) | 0x80);
        v >>= 7;
    }
    out.push(v as u8);
}

fn write_len_delimited(out: &mut Vec<u8>, field_number: u32, value: &[u8]) {
    let tag = (field_number << 3) | 2;
    write_varint(out, u64::from(tag));
    write_varint(out, value.len() as u64);
    out.extend_from_slice(value);
}

#[test]
fn proto_decompose_duplicate_signature_strict() {
    let mut wire = Vec::new();
    write_len_delimited(&mut wire, 1, b"p\n");
    write_len_delimited(&mut wire, 2, b"a");
    write_len_delimited(&mut wire, 2, b"b");
    let resp = decompose(&DecomposeRequest {
        artifact: &wire,
        form: TranscriptionForm::Protobuf,
        outer_conformance: Some(OuterConformance::SignatureStrict),
    });
    match resp {
        DecomposeResponse::Shape(r) => {
            assert_eq!(r.outcome, DecomposeOutcome::MalformedAttemptedSigned);
        }
        DecomposeResponse::Invocation(e) => panic!("{e:?}"),
    }
}

#[test]
fn proto_decompose_unknown_outer_field_strict() {
    let mut wire = Vec::new();
    write_len_delimited(&mut wire, 1, b"p\n");
    write_len_delimited(&mut wire, 2, b"sig");
    write_len_delimited(&mut wire, 99, b"x");
    let resp = decompose(&DecomposeRequest {
        artifact: &wire,
        form: TranscriptionForm::Protobuf,
        outer_conformance: Some(OuterConformance::Strict),
    });
    match resp {
        DecomposeResponse::Shape(r) => {
            assert_eq!(r.outcome, DecomposeOutcome::MalformedAttemptedSigned);
        }
        DecomposeResponse::Invocation(e) => panic!("{e:?}"),
    }
}

