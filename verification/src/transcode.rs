//! Transcoding signed artifacts between the YAML stream and protobuf wire
//! forms: decompose, carry the signature metadata across, compose.

use vstd::prelude::*;
use vstd::utf8::{
    decode_utf8, encode_utf8, encode_utf8_decode_utf8, encode_utf8_valid_utf8, valid_utf8,
};
use crate::algorithm::{
    algorithm_of_wire, algorithm_of_yaml_chars, yaml_alg_chars, AlgorithmId, SCHEMA_V1ALPHA1,
};
use crate::conformance::OuterConformance;
use crate::error::{core_fault, CoreError, CoreFault};
use crate::external::{
    base64_url_decode, base64_url_encode, base64_url_nopad_decoding, base64_url_nopad_encoding,
};
use crate::payload::{valid_payload, validate_payload_stream};
use crate::pb::{decode_signature_model, lemma_signature_round_trip, sig_wire, SigModel};
use crate::pb_error::{DecodeErrorKind, MAX_MESSAGE_BYTES};
use crate::pb_error::EncodeError;
use crate::proto_outer::{
    compose_proto_outer, compose_proto_outer_with_resource_limits, outer_wire, outer_wire_fits,
    outer_wire_len,
    proto_outer_decomposition, lemma_proto_outer_round_trip,
};
use crate::resource::{
    error_facts, exceeds, ArtifactResourceError, ArtifactResourceErrorKind, ArtifactResourceForm,
    ArtifactResourceLimits,
};
use crate::signature_doc::{canonical_carrier, serialize_signature_document, SignatureDocument};
use crate::transcription::{
    compose, compose_result, decompose, lemma_yaml_compose_decompose_round_trip, yaml_decompose_view, ComposeOutcome, ComposeRequest,
    DecomposeOutcome, DecomposeRequest, DecomposeResponse, DecomposeView, TranscriptionForm,
};
use crate::sign::signature_text_round_trips;
use crate::verify::{
    doc_keyid, proto_metadata, proto_pre_verify, state_after_pre_verify, yaml_metadata,
    yaml_structure_stage, ArtifactForm, PreVerifyOutcome, PreVerifyView, PublicKeys,
    VerifierOptions,
};
use crate::verify_input::{parse_answer, yaml_pre_verify, SignatureDocumentParser};
use crate::wire::{decode_failure_text, view_signature_carrier};

verus! {

/// Failure to transcode between the YAML stream and protobuf wire forms.
#[derive(Debug, Clone, PartialEq, Eq)]
pub enum TranscodeError {
    NotSignedYamlStream,
    PayloadInvariant,
    InvalidSignatureBase64,
    UnknownYamlAlg,
    UnsupportedWireAlg,
    SchemaMismatch,
    Core(CoreError),
    YamlSerialize(String),
}

/// The abstract content of a transcoding failure.
pub enum TranscodeFault {
    NotSignedYamlStream,
    PayloadInvariant,
    InvalidSignatureBase64,
    UnknownYamlAlg,
    UnsupportedWireAlg,
    SchemaMismatch,
    Core(CoreFault),
    YamlSerialize(Seq<char>),
}

pub open spec fn transcode_fault(e: TranscodeError) -> TranscodeFault {
    match e {
        TranscodeError::NotSignedYamlStream => TranscodeFault::NotSignedYamlStream,
        TranscodeError::PayloadInvariant => TranscodeFault::PayloadInvariant,
        TranscodeError::InvalidSignatureBase64 => TranscodeFault::InvalidSignatureBase64,
        TranscodeError::UnknownYamlAlg => TranscodeFault::UnknownYamlAlg,
        TranscodeError::UnsupportedWireAlg => TranscodeFault::UnsupportedWireAlg,
        TranscodeError::SchemaMismatch => TranscodeFault::SchemaMismatch,
        TranscodeError::Core(c) => TranscodeFault::Core(core_fault(c)),
        TranscodeError::YamlSerialize(s) => TranscodeFault::YamlSerialize(s@),
    }
}

/// The human-readable description of a transcoding failure.
pub open spec fn transcode_error_message(e: TranscodeError) -> Seq<char> {
    match e {
        TranscodeError::NotSignedYamlStream => "artifact is not a well-formed signed YAML stream"@,
        TranscodeError::PayloadInvariant => "payload invariant violation"@,
        TranscodeError::InvalidSignatureBase64 => "invalid base64 in YAML signature field"@,
        TranscodeError::UnknownYamlAlg => "unknown or unsupported YAML `alg` value"@,
        TranscodeError::UnsupportedWireAlg => "unsupported algorithm wire value"@,
        TranscodeError::SchemaMismatch => "YAML signature document schema mismatch"@,
        TranscodeError::Core(c) => crate::error::core_error_message(c),
        TranscodeError::YamlSerialize(s) => "YAML serialization failed: "@ + s@,
    }
}

impl TranscodeError {
    /// Human-readable description of the failure.
    pub fn message(&self) -> (r: String)
        ensures
            r@ == transcode_error_message(*self),
    {
        match self {
            TranscodeError::NotSignedYamlStream => String::from_str(
                "artifact is not a well-formed signed YAML stream",
            ),
            TranscodeError::PayloadInvariant => String::from_str("payload invariant violation"),
            TranscodeError::InvalidSignatureBase64 => String::from_str(
                "invalid base64 in YAML signature field",
            ),
            TranscodeError::UnknownYamlAlg => String::from_str(
                "unknown or unsupported YAML `alg` value",
            ),
            TranscodeError::UnsupportedWireAlg => String::from_str(
                "unsupported algorithm wire value",
            ),
            TranscodeError::SchemaMismatch => String::from_str(
                "YAML signature document schema mismatch",
            ),
            TranscodeError::Core(e) => e.message(),
            TranscodeError::YamlSerialize(s) => {
                let mut out = String::from_str("YAML serialization failed: ");
                out.append(s.as_str());
                out
            },
        }
    }
}

pub open spec fn keyid_text(k: Option<Seq<u8>>) -> Option<Seq<char>> {
    match k {
        Some(b) => Some(decode_utf8(b)),
        None => None,
    }
}

/// The payload and YAML carrier that a protobuf artifact transcodes to.
pub open spec fn proto_to_yaml_parts(wire: Seq<u8>) -> Result<(Seq<u8>, Seq<char>), TranscodeFault> {
    match proto_outer_decomposition(wire, OuterConformance::SignatureStrict) {
        None => Err(TranscodeFault::NotSignedYamlStream),
        Some((p, c)) => if !valid_payload(p) {
            Err(TranscodeFault::PayloadInvariant)
        } else {
            match decode_signature_model(c) {
                Err(k) => Err(TranscodeFault::Core(CoreFault::ProtobufDecode(decode_failure_text(k)))),
                Ok(s) => match algorithm_of_wire(s.alg) {
                    None => Err(TranscodeFault::UnsupportedWireAlg),
                    Some(a) => Ok(
                        (
                            p,
                            canonical_carrier(
                                SCHEMA_V1ALPHA1@,
                                yaml_alg_chars(a),
                                keyid_text(s.keyid),
                                base64_url_nopad_encoding(s.signature),
                            ),
                        ),
                    ),
                },
            }
        },
    }
}

/// The YAML stream that a protobuf artifact transcodes to.
pub open spec fn proto_to_yaml(wire: Seq<u8>) -> Result<Seq<u8>, TranscodeFault> {
    match proto_to_yaml_parts(wire) {
        Err(f) => Err(f),
        Ok((p, body)) => match compose_result(p, encode_utf8(body), TranscriptionForm::Yaml) {
            Ok(w) => Ok(w),
            Err(_) => Err(TranscodeFault::NotSignedYamlStream),
        },
    }
}

/// The signature message of the protobuf artifact `wire`, when its outer
/// envelope decomposes and its carrier decodes.
pub open spec fn proto_signature_message(wire: Seq<u8>) -> Option<SigModel> {
    match proto_outer_decomposition(wire, OuterConformance::SignatureStrict) {
        Some((_, c)) => match decode_signature_model(c) {
            Ok(s) => Some(s),
            Err(_) => None,
        },
        None => None,
    }
}

/// Whether the signature message of `wire`, if any, has a UTF-8 key
/// identifier and a signature whose base64 text decodes back to it.
pub open spec fn proto_signature_transcribable(wire: Seq<u8>) -> bool {
    proto_signature_message(wire) matches Some(s) ==> signature_text_round_trips(s.signature) && (
    s.keyid matches Some(k) ==> valid_utf8(k))
}

/// The schema, alg, keyid, and signature text of the signature document
/// that transcoding `wire` to YAML writes.
pub open spec fn transcribed_document(wire: Seq<u8>) -> Option<
    (Seq<char>, Seq<char>, Option<Seq<char>>, Seq<char>),
> {
    match proto_signature_message(wire) {
        Some(s) => match algorithm_of_wire(s.alg) {
            Some(a) => Some(
                (
                    SCHEMA_V1ALPHA1@,
                    yaml_alg_chars(a),
                    keyid_text(s.keyid),
                    base64_url_nopad_encoding(s.signature),
                ),
            ),
            None => None,
        },
        None => None,
    }
}

/// Whether the parsed document `d` reads back the fields `f`.
pub open spec fn document_reads_back(
    d: SignatureDocument,
    f: (Seq<char>, Seq<char>, Option<Seq<char>>, Seq<char>),
) -> bool {
    &&& d.schema@ == f.0
    &&& d.alg@ == f.1
    &&& doc_keyid(d) == f.2
    &&& d.signature@ == f.3
}

/// `v` with its form replaced by `form`.
pub open spec fn with_form(v: PreVerifyView, form: ArtifactForm) -> PreVerifyView {
    PreVerifyView { outcome: v.outcome, form, payload: v.payload, metadata: v.metadata }
}

/// Whether the YAML artifact `yaml`, pre-verified with any parse of its
/// carrier that reads back the fields that transcoding `wire` wrote,
/// pre-verifies exactly as `wire` does.
pub open spec fn transcript_pre_verifies_as(wire: Seq<u8>, yaml: Seq<u8>) -> bool {
    transcribed_document(wire) matches Some(f) && forall|d: SignatureDocument, allow_unsigned: bool|
        document_reads_back(d, f) ==> #[trigger] yaml_pre_verify(
            yaml,
            allow_unsigned,
            Ok::<SignatureDocument, CoreError>(d),
        ) == with_form(proto_pre_verify(wire), ArtifactForm::Yaml)
}

proof fn lemma_transcript_pre_verifies(wire: Seq<u8>, yaml: Seq<u8>)
    requires
        proto_to_yaml(wire) == Ok::<Seq<u8>, TranscodeFault>(yaml),
        yaml.len() <= usize::MAX,
        proto_signature_transcribable(wire),
    ensures
        transcript_pre_verifies_as(wire, yaml),
{
    let (p, c) = proto_outer_decomposition(wire, OuterConformance::SignatureStrict)->Some_0;
    let s = decode_signature_model(c)->Ok_0;
    let a = algorithm_of_wire(s.alg)->Some_0;
    let f = (
        SCHEMA_V1ALPHA1@,
        yaml_alg_chars(a),
        keyid_text(s.keyid),
        base64_url_nopad_encoding(s.signature),
    );
    assert(transcribed_document(wire) == Some(f));
    let body = canonical_carrier(f.0, f.1, f.2, f.3);
    let carrier = encode_utf8(body);
    assert(proto_to_yaml_parts(wire) == Ok::<(Seq<u8>, Seq<char>), TranscodeFault>((p, body)));
    reveal_strlit("schema: ");
    assert(body.len() > 0);
    encode_utf8_valid_utf8(body);
    encode_utf8_decode_utf8(body);
    if carrier.len() == 0 {
        assert(carrier =~= Seq::<u8>::empty());
        assert(decode_utf8(carrier) =~= Seq::<char>::empty());
    }
    assert(compose_result(p, carrier, TranscriptionForm::Yaml) == Ok::<Seq<u8>, crate::transcription::TranscriberError>(yaml));
    lemma_yaml_compose_decompose_round_trip(p, carrier);
    reveal_strlit("ED25519_PUREEDDSA_RAW_RS64_CANONICAL");
    reveal_strlit("ECDSA_SECP256R1_SHA256_RAW_RS64");
    assert(algorithm_of_yaml_chars(yaml_alg_chars(a)) == Some(a));
    match s.keyid {
        Some(k) => {
            vstd::utf8::decode_utf8_encode_utf8(k);
        },
        None => {},
    }
    assert(yaml_metadata(f.0, f.1, f.2, f.3) == proto_metadata(s));
    assert forall|d: SignatureDocument, allow_unsigned: bool|
        document_reads_back(d, f) implies #[trigger] yaml_pre_verify(
            yaml,
            allow_unsigned,
            Ok::<SignatureDocument, CoreError>(d),
        ) == with_form(proto_pre_verify(wire), ArtifactForm::Yaml) by {
        assert(yaml_structure_stage(yaml, allow_unsigned) == Ok::<(Seq<u8>, Seq<u8>), PreVerifyOutcome>(
            (p, carrier),
        ));
    }
}

/// A protobuf artifact and its YAML form verify alike: verifying the YAML
/// form with a parse of its carrier that reads back the fields that were
/// written gives what verifying the protobuf artifact gives,
/// under every key set and every option set.
pub proof fn lemma_yaml_form_verifies_as_proto(
    wire: Seq<u8>,
    yaml: Seq<u8>,
    d: SignatureDocument,
    keys: PublicKeys,
    options: VerifierOptions,
)
    requires
        transcript_pre_verifies_as(wire, yaml),
        transcribed_document(wire) matches Some(f) && document_reads_back(d, f),
    ensures
        state_after_pre_verify(
            yaml_pre_verify(yaml, false, Ok::<SignatureDocument, CoreError>(d)),
            ArtifactForm::Yaml,
            keys,
            options,
        ) == state_after_pre_verify(proto_pre_verify(wire), ArtifactForm::Proto, keys, options),
{
    assert(yaml_pre_verify(yaml, false, Ok::<SignatureDocument, CoreError>(d)) == with_form(
        proto_pre_verify(wire),
        ArtifactForm::Yaml,
    ));
}

/// Protobuf decomposition under signature-strict conformance.
fn proto_decompose(wire: &[u8]) -> (r: Result<(Vec<u8>, Vec<u8>), TranscodeError>)
    ensures
        match proto_outer_decomposition(wire@, OuterConformance::SignatureStrict) {
            None => r == Err::<(Vec<u8>, Vec<u8>), TranscodeError>(TranscodeError::NotSignedYamlStream),
            Some((p, c)) => r matches Ok((pv, cv)) && pv@ == p && cv@ == c,
        },
{
    let resp = decompose(
        &DecomposeRequest {
            artifact: wire,
            form: TranscriptionForm::Protobuf,
            outer_conformance: Some(OuterConformance::SignatureStrict),
        },
    );
    let structural = match resp {
        DecomposeResponse::Shape(s) => s,
        DecomposeResponse::Invocation(_) => return Err(TranscodeError::NotSignedYamlStream),
    };
    if structural.outcome != DecomposeOutcome::Recovered {
        return Err(TranscodeError::NotSignedYamlStream);
    }
    match (structural.payload, structural.signature_carrier) {
        (Some(p), Some(c)) => Ok((p, c)),
        _ => Err(TranscodeError::NotSignedYamlStream),
    }
}

/// The payload and serialized YAML carrier for a protobuf artifact.
fn proto_to_yaml_components(wire: &[u8]) -> (r: Result<(Vec<u8>, String), TranscodeError>)
    ensures
        match proto_to_yaml_parts(wire@) {
            Err(f) => r matches Err(e) && transcode_fault(e) == f,
            Ok((p, body)) => r matches Ok((pv, bv)) && pv@ == p && bv@ == body,
        },
        r is Ok ==> proto_signature_transcribable(wire@),
{
    let (payload, carrier) = match proto_decompose(wire) {
        Ok(x) => x,
        Err(e) => return Err(e),
    };
    if validate_payload_stream(payload.as_slice()).is_err() {
        return Err(TranscodeError::PayloadInvariant);
    }
    let view = match view_signature_carrier(carrier.as_slice()) {
        Ok(v) => v,
        Err(e) => return Err(TranscodeError::Core(e)),
    };
    let alg = match AlgorithmId::from_i32(view.alg_wire) {
        Some(a) => a,
        None => return Err(TranscodeError::UnsupportedWireAlg),
    };
    proof {
        match &view.keyid {
            Some(k) => {
                vstd::utf8::encode_utf8_decode_utf8(k@);
            },
            None => {},
        }
    }
    proof {
        match &view.keyid {
            Some(k) => {
                encode_utf8_valid_utf8(k@);
            },
            None => {},
        }
    }
    proof {
        crate::pb::lemma_sig_scan_signature_len(
            carrier@,
            0,
            crate::pb::empty_sig(),
            crate::pb_wire::RECURSION_LIMIT as nat,
            true,
        );
    }
    assert(view.signature@.len() <= MAX_MESSAGE_BYTES);
    let signature_text = base64_url_encode(view.signature.as_slice());
    let doc = SignatureDocument {
        schema: String::from_str(SCHEMA_V1ALPHA1),
        alg: String::from_str(alg.as_yaml_str()),
        keyid: view.keyid,
        signature: signature_text,
    };
    let body = match serialize_signature_document(&doc) {
        Ok(b) => b,
        Err(e) => return Err(TranscodeError::YamlSerialize(e.message())),
    };
    Ok((payload, body))
}

/// Convert protobuf wire bytes into a signed YAML stream. No size limit is
/// applied.
pub fn proto_wire_to_signed_yaml_stream(wire: &[u8]) -> (r: Result<Vec<u8>, TranscodeError>)
    ensures
        match proto_to_yaml(wire@) {
            Err(f) => r matches Err(e) && transcode_fault(e) == f,
            Ok(w) => r matches Ok(v) && v@ == w,
        },
        r matches Ok(v) ==> transcript_pre_verifies_as(wire@, v@),
{
    let (payload, body) = match proto_to_yaml_components(wire) {
        Ok(x) => x,
        Err(e) => return Err(e),
    };
    match compose(
        &ComposeRequest {
            payload: payload.as_slice(),
            signature_carrier: body.as_str().as_bytes(),
            form: TranscriptionForm::Yaml,
        },
    ) {
        ComposeOutcome::Success(s) => {
            proof {
                assert(s.artifact@.len() == s.artifact.len());
                lemma_transcript_pre_verifies(wire@, s.artifact@);
            }
            Ok(s.artifact)
        },
        _ => Err(TranscodeError::NotSignedYamlStream),
    }
}

/// Convert protobuf to signed YAML with independent checks of the source
/// and of the exact destination size.
pub fn proto_wire_to_signed_yaml_stream_with_resource_limits(
    wire: &[u8],
    limits: &ArtifactResourceLimits,
) -> (r: Result<Result<Vec<u8>, TranscodeError>, ArtifactResourceError>)
    ensures
        exceeds(limits@, wire@.len() as int) ==> (r matches Err(e) && e@ == error_facts(
            ArtifactResourceErrorKind::InputArtifactTooLarge,
            ArtifactResourceForm::Protobuf,
            limits@,
            Some(wire@.len() as usize),
        )),
        !exceeds(limits@, wire@.len() as int) ==> match proto_to_yaml_parts(wire@) {
            Err(f) => r matches Ok(Err(e)) && transcode_fault(e) == f,
            Ok((p, body)) => {
                let n = p.len() + 4 + encode_utf8(body).len();
                &&& n > usize::MAX ==> (r matches Err(e) && e@ == error_facts(
                    ArtifactResourceErrorKind::SizeComputationOverflow,
                    ArtifactResourceForm::Yaml,
                    limits@,
                    None,
                ))
                &&& n <= usize::MAX && exceeds(limits@, n as int) ==> (r matches Err(e) && e@
                    == error_facts(
                    ArtifactResourceErrorKind::OutputArtifactTooLarge,
                    ArtifactResourceForm::Yaml,
                    limits@,
                    Some(n as usize),
                ))
                &&& n <= usize::MAX && !exceeds(limits@, n as int) ==> (r matches Ok(inner)
                    && match proto_to_yaml(wire@) {
                    Err(f) => inner matches Err(e) && transcode_fault(e) == f,
                    Ok(w) => inner matches Ok(v) && v@ == w,
                })
            },
        },
        r matches Ok(Ok(v)) ==> transcript_pre_verifies_as(wire@, v@),
{
    match limits.check_input_size(ArtifactResourceForm::Protobuf, wire) {
        Err(e) => return Err(e),
        Ok(_) => {},
    }
    let (payload, body) = match proto_to_yaml_components(wire) {
        Ok(x) => x,
        Err(e) => return Ok(Err(e)),
    };
    let body_bytes = body.as_str().as_bytes();
    let encoded_size = match payload.len().checked_add(4) {
        Some(s) => s.checked_add(body_bytes.len()),
        None => None,
    };
    let encoded_size = match encoded_size {
        Some(s) => s,
        None => return Err(limits.size_computation_overflow(ArtifactResourceForm::Yaml)),
    };
    match limits.check_output_size(ArtifactResourceForm::Yaml, encoded_size) {
        Err(e) => return Err(e),
        Ok(_) => {},
    }
    match compose(
        &ComposeRequest {
            payload: payload.as_slice(),
            signature_carrier: body_bytes,
            form: TranscriptionForm::Yaml,
        },
    ) {
        ComposeOutcome::Success(s) => {
            proof {
                lemma_transcript_pre_verifies(wire@, s.artifact@);
            }
            Ok(Ok(s.artifact))
        },
        _ => Ok(Err(TranscodeError::NotSignedYamlStream)),
    }
}

/// The YAML structural stage of YAML-to-protobuf transcoding: payload and
/// carrier of a signed YAML stream with a valid payload.
pub open spec fn yaml_to_proto_split_spec(yaml: Seq<u8>) -> Result<(Seq<u8>, Seq<u8>), TranscodeFault> {
    match yaml_decompose_view(yaml) {
        DecomposeView::Shape(DecomposeOutcome::Recovered, Some(p), Some(c)) => if !valid_payload(p) {
            Err(TranscodeFault::PayloadInvariant)
        } else {
            Ok((p, c))
        },
        _ => Err(TranscodeFault::NotSignedYamlStream),
    }
}

/// Decompose a signed YAML stream and check its payload; the carrier is
/// then parsed as a signature document.
pub fn yaml_to_proto_split(yaml_artifact: &[u8]) -> (r: Result<(Vec<u8>, Vec<u8>), TranscodeError>)
    ensures
        match yaml_to_proto_split_spec(yaml_artifact@) {
            Err(f) => r matches Err(e) && transcode_fault(e) == f,
            Ok((p, c)) => r matches Ok((pv, cv)) && pv@ == p && cv@ == c,
        },
{
    let resp = crate::transcription::decompose_yaml(yaml_artifact);
    let structural = match resp {
        DecomposeResponse::Shape(s) => s,
        DecomposeResponse::Invocation(_) => return Err(TranscodeError::NotSignedYamlStream),
    };
    if structural.outcome != DecomposeOutcome::Recovered {
        return Err(TranscodeError::NotSignedYamlStream);
    }
    let (payload, carrier) = match (structural.payload, structural.signature_carrier) {
        (Some(p), Some(c)) => (p, c),
        _ => return Err(TranscodeError::NotSignedYamlStream),
    };
    if validate_payload_stream(payload.as_slice()).is_err() {
        return Err(TranscodeError::PayloadInvariant);
    }
    Ok((payload, carrier))
}

pub open spec fn opt_string_chars(k: Option<String>) -> Option<Seq<char>> {
    match k {
        Some(s) => Some(s@),
        None => None,
    }
}

/// The inner signature carrier for a parsed signature document.
pub open spec fn proto_carrier_from_document(
    schema: Seq<char>,
    alg: Seq<char>,
    keyid: Option<Seq<char>>,
    signature: Seq<char>,
) -> Result<Seq<u8>, TranscodeFault> {
    if schema != SCHEMA_V1ALPHA1@ {
        Err(TranscodeFault::SchemaMismatch)
    } else {
        match base64_url_nopad_decoding(encode_utf8(signature)) {
            None => Err(TranscodeFault::InvalidSignatureBase64),
            Some(octets) => match algorithm_of_yaml_chars(alg) {
                None => Err(TranscodeFault::UnknownYamlAlg),
                Some(a) => Ok(
                    sig_wire(
                        SigModel {
                            alg: crate::algorithm::wire_value(a),
                            keyid: match keyid {
                                Some(k) => Some(encode_utf8(k)),
                                None => None,
                            },
                            signature: octets,
                            unknown: Seq::empty(),
                        },
                    ),
                ),
            },
        }
    }
}

pub open spec fn document_carrier(d: SignatureDocument) -> Result<Seq<u8>, TranscodeFault> {
    proto_carrier_from_document(d.schema@, d.alg@, opt_string_chars(d.keyid), d.signature@)
}

/// The inner signature carrier for the signature-document parse result.
fn inner_carrier_from_document(parsed: Result<SignatureDocument, CoreError>) -> (r: Result<
    Vec<u8>,
    TranscodeError,
>)
    ensures
        match parsed {
            Err(c) => r == Err::<Vec<u8>, TranscodeError>(TranscodeError::Core(c)),
            Ok(d) => match document_carrier(d) {
                Err(f) => r matches Err(e) && transcode_fault(e) == f,
                Ok(c) => r matches Ok(v) && v@ == c,
            },
        },
{
    let doc = match parsed {
        Ok(d) => d,
        Err(c) => return Err(TranscodeError::Core(c)),
    };
    if doc.validate_schema().is_err() {
        return Err(TranscodeError::SchemaMismatch);
    }
    let octets = match base64_url_decode(doc.signature.as_str().as_bytes()) {
        Some(o) => o,
        None => return Err(TranscodeError::InvalidSignatureBase64),
    };
    let alg = match AlgorithmId::from_yaml_str(doc.alg.as_str()) {
        Some(a) => a,
        None => return Err(TranscodeError::UnknownYamlAlg),
    };
    let mut message = crate::pb::YamlSigilSignature::new(alg, octets);
    message.set_keyid(doc.keyid);
    let mut out: Vec<u8> = Vec::new();
    message.write_wire(&mut out);
    assert(out@ =~= sig_wire(message@));
    assert(message@.unknown =~= Seq::<u8>::empty());
    Ok(out)
}

/// The protobuf artifact for a checked payload and the parse result of its
/// signature document.
pub fn proto_wire_from_signature_document(
    payload: &[u8],
    parsed: Result<SignatureDocument, CoreError>,
) -> (r: Result<Vec<u8>, TranscodeError>)
    requires
        parsed matches Ok(d) ==> (document_carrier(d) matches Ok(c) ==> outer_wire(payload@, c).len()
            <= usize::MAX),
    ensures
        match parsed {
            Err(c) => r == Err::<Vec<u8>, TranscodeError>(TranscodeError::Core(c)),
            Ok(d) => match document_carrier(d) {
                Err(f) => r matches Err(e) && transcode_fault(e) == f,
                Ok(c) => r matches Ok(v) && v@ == outer_wire(payload@, c),
            },
        },
{
    let carrier = match inner_carrier_from_document(parsed) {
        Ok(c) => c,
        Err(e) => return Err(e),
    };
    Ok(compose_proto_outer(payload, carrier.as_slice()))
}

/// Whether `r` is the protobuf artifact, composed under the output policy
/// `limits`, for the checked payload `payload` and the signature-document
/// parse result `parsed`.
pub open spec fn document_proto_result_is(
    r: Result<Result<Result<Vec<u8>, TranscodeError>, EncodeError>, ArtifactResourceError>,
    payload: Seq<u8>,
    parsed: Result<SignatureDocument, CoreError>,
    limits: Option<usize>,
) -> bool {
    match parsed {
        Err(c) => r == Ok::<Result<Result<Vec<u8>, TranscodeError>, EncodeError>, ArtifactResourceError>(
            Ok(Err(TranscodeError::Core(c))),
        ),
        Ok(d) => match document_carrier(d) {
            Err(f) => r matches Ok(Ok(Err(e))) && transcode_fault(e) == f,
            Ok(c) => {
                let n = outer_wire(payload, c).len();
                &&& n > usize::MAX ==> (r matches Err(e) && e@ == error_facts(
                    ArtifactResourceErrorKind::SizeComputationOverflow,
                    ArtifactResourceForm::Protobuf,
                    limits,
                    None,
                ))
                &&& n <= usize::MAX && exceeds(limits, n as int) ==> (r matches Err(e) && e@
                    == error_facts(
                    ArtifactResourceErrorKind::OutputArtifactTooLarge,
                    ArtifactResourceForm::Protobuf,
                    limits,
                    Some(n as usize),
                ))
                &&& n <= usize::MAX && !exceeds(limits, n as int) && n
                    > crate::pb_error::MAX_MESSAGE_BYTES ==> (r matches Ok(Err(e)) && e@
                    == crate::pb_error::EncodeErrorKind::MessageTooLarge)
                &&& n <= usize::MAX && !exceeds(limits, n as int) && n
                    <= crate::pb_error::MAX_MESSAGE_BYTES ==> (r matches Ok(Ok(Ok(v))) && v@
                    == outer_wire(payload, c))
            },
        },
    }
}

/// The protobuf artifact for a checked payload and the parse result of its
/// signature document, composed under an explicit output policy.
pub fn proto_wire_from_signature_document_with_resource_limits(
    payload: &[u8],
    parsed: Result<SignatureDocument, CoreError>,
    limits: &ArtifactResourceLimits,
) -> (r: Result<Result<Result<Vec<u8>, TranscodeError>, EncodeError>, ArtifactResourceError>)
    ensures
        document_proto_result_is(r, payload@, parsed, limits@),
{
    let carrier = match inner_carrier_from_document(parsed) {
        Ok(c) => c,
        Err(e) => return Ok(Ok(Err(e))),
    };
    match compose_proto_outer_with_resource_limits(payload, carrier.as_slice(), limits) {
        Err(e) => Err(e),
        Ok(Err(e)) => Ok(Err(e)),
        Ok(Ok(v)) => Ok(Ok(Ok(v))),
    }
}


/// Convert a signed YAML stream into protobuf wire bytes, checking the
/// source before parsing and the exact destination size before composing.
pub fn signed_yaml_stream_to_proto_wire_with_resource_limits<P: SignatureDocumentParser>(
    yaml_artifact: &[u8],
    limits: &ArtifactResourceLimits,
    parser: &P,
) -> (r: Result<Result<Result<Vec<u8>, TranscodeError>, EncodeError>, ArtifactResourceError>)
    ensures
        exceeds(limits@, yaml_artifact@.len() as int) ==> (r matches Err(e) && e@ == error_facts(
            ArtifactResourceErrorKind::InputArtifactTooLarge,
            ArtifactResourceForm::Yaml,
            limits@,
            Some(yaml_artifact@.len() as usize),
        )),
        !exceeds(limits@, yaml_artifact@.len() as int) ==> match yaml_to_proto_split_spec(
            yaml_artifact@,
        ) {
            Err(f) => r matches Ok(Ok(Err(e))) && transcode_fault(e) == f,
            Ok((p, c)) => exists|parsed: Result<SignatureDocument, CoreError>|
                #[trigger] parse_answer(parser, c, parsed) && document_proto_result_is(
                    r,
                    p,
                    parsed,
                    limits@,
                ) && (r matches Ok(Ok(Ok(w))) ==> proto_transcript_pre_verifies_as(
                    w@,
                    yaml_artifact@,
                    parsed,
                )),
        },
{
    match limits.check_input_size(ArtifactResourceForm::Yaml, yaml_artifact) {
        Err(e) => return Err(e),
        Ok(_) => {},
    }
    let (payload, carrier) = match yaml_to_proto_split(yaml_artifact) {
        Ok(parts) => parts,
        Err(e) => return Ok(Ok(Err(e))),
    };
    let carrier_bytes = carrier.as_slice();
    let parsed = parser.parse_signature_document(carrier_bytes);
    let ghost parsed_ghost = parsed;
    assert(parse_answer(parser, carrier@, parsed_ghost));
    let r = proto_wire_from_signature_document_with_resource_limits(payload.as_slice(), parsed, limits);
    proof {
        if r is Ok && r->Ok_0 is Ok && r->Ok_0->Ok_0 is Ok {
            lemma_proto_transcript_pre_verifies(
                yaml_artifact@,
                parsed_ghost->Ok_0,
                document_carrier(parsed_ghost->Ok_0)->Ok_0,
            );
        }
    }
    assert(document_proto_result_is(r, payload@, parsed_ghost, limits@));
    r
}

/// Whether `r` is the protobuf artifact for the checked payload `payload`
/// and the signature-document parse result `parsed`; `None` stands for an
/// artifact whose length would not fit in `usize`.
pub open spec fn document_proto_is(
    r: Option<Result<Vec<u8>, TranscodeError>>,
    payload: Seq<u8>,
    parsed: Result<SignatureDocument, CoreError>,
) -> bool {
    match parsed {
        Err(c) => r == Some(Err::<Vec<u8>, TranscodeError>(TranscodeError::Core(c))),
        Ok(d) => match document_carrier(d) {
            Err(f) => r matches Some(Err(e)) && transcode_fault(e) == f,
            Ok(c) => if outer_wire(payload, c).len() <= usize::MAX {
                r matches Some(Ok(v)) && v@ == outer_wire(payload, c)
            } else {
                r is None
            },
        },
    }
}

/// Convert a signed YAML stream into protobuf wire bytes. The result is
/// `None` only where the composed artifact's length would not fit in
/// `usize`.
pub fn signed_yaml_stream_to_proto_wire<P: SignatureDocumentParser>(
    yaml_artifact: &[u8],
    parser: &P,
) -> (r: Option<Result<Vec<u8>, TranscodeError>>)
    ensures
        match yaml_to_proto_split_spec(yaml_artifact@) {
            Err(f) => r matches Some(Err(e)) && transcode_fault(e) == f,
            Ok((p, c)) => exists|parsed: Result<SignatureDocument, CoreError>|
                #[trigger] parse_answer(parser, c, parsed) && document_proto_is(r, p, parsed) && (r matches Some(
                    Ok(w),
                ) ==> (w@.len() <= MAX_MESSAGE_BYTES ==> proto_transcript_pre_verifies_as(
                    w@,
                    yaml_artifact@,
                    parsed,
                ))),
        },
{
    let (payload, carrier) = match yaml_to_proto_split(yaml_artifact) {
        Ok(parts) => parts,
        Err(e) => return Some(Err(e)),
    };
    let carrier_bytes = carrier.as_slice();
    let parsed = parser.parse_signature_document(carrier_bytes);
    let ghost parsed_ghost = parsed;
    assert(parse_answer(parser, carrier@, parsed_ghost));
    let inner = match inner_carrier_from_document(parsed) {
        Ok(c) => c,
        Err(e) => {
            assert(document_proto_is(Some(Err(e)), payload@, parsed_ghost));
            return Some(Err(e));
        },
    };
    assert(outer_wire(payload@, inner@).len() == outer_wire_len(payload@.len(), inner@.len()));
    if !outer_wire_fits(payload.len(), inner.len()) {
        assert(document_proto_is(None, payload@, parsed_ghost));
        return None;
    }
    let wire = compose_proto_outer(payload.as_slice(), inner.as_slice());
    proof {
        if wire@.len() <= MAX_MESSAGE_BYTES {
            lemma_proto_transcript_pre_verifies(yaml_artifact@, parsed_ghost->Ok_0, inner@);
        }
    }
    let r = Some(Ok(wire));
    assert(document_proto_is(r, payload@, parsed_ghost));
    r
}

/// Whether the protobuf artifact `wire`, transcoded from the YAML artifact
/// `yaml` with the signature-document parse result `parsed`, pre-verifies
/// exactly as `yaml` does with that parse.
pub open spec fn proto_transcript_pre_verifies_as(
    wire: Seq<u8>,
    yaml: Seq<u8>,
    parsed: Result<SignatureDocument, CoreError>,
) -> bool {
    proto_pre_verify(wire) == with_form(yaml_pre_verify(yaml, false, parsed), ArtifactForm::Proto)
}

proof fn lemma_proto_transcript_pre_verifies(yaml: Seq<u8>, d: SignatureDocument, c: Seq<u8>)
    requires
        yaml_to_proto_split_spec(yaml) matches Ok((p, _)) && outer_wire(p, c).len()
            <= MAX_MESSAGE_BYTES,
        document_carrier(d) == Ok::<Seq<u8>, TranscodeFault>(c),
    ensures
        yaml_to_proto_split_spec(yaml) matches Ok((p, _)) && proto_transcript_pre_verifies_as(
            outer_wire(p, c),
            yaml,
            Ok::<SignatureDocument, CoreError>(d),
        ),
{
    let (p, carrier) = yaml_to_proto_split_spec(yaml)->Ok_0;
    assert(yaml_structure_stage(yaml, false) == Ok::<(Seq<u8>, Seq<u8>), PreVerifyOutcome>(
        (p, carrier),
    ));
    let octets = base64_url_nopad_decoding(encode_utf8(d.signature@))->Some_0;
    let a = algorithm_of_yaml_chars(d.alg@)->Some_0;
    let keyid = match d.keyid {
        Some(k) => Some(encode_utf8(k@)),
        None => None,
    };
    let m = SigModel { alg: crate::algorithm::wire_value(a), keyid, signature: octets, unknown: Seq::empty() };
    assert(c == sig_wire(m));
    match d.keyid {
        Some(k) => {
            encode_utf8_valid_utf8(k@);
            encode_utf8_decode_utf8(k@);
        },
        None => {},
    }
    lemma_proto_outer_round_trip(p, c, OuterConformance::SignatureStrict);
    lemma_signature_round_trip(m);
    assert(decode_signature_model(c) == Ok::<SigModel, DecodeErrorKind>(m));
    assert(algorithm_of_wire(crate::algorithm::wire_value(a)) == Some(a));
    assert(proto_metadata(m) == yaml_metadata(d.schema@, d.alg@, doc_keyid(d), d.signature@));
}

/// A YAML artifact and its protobuf form verify alike: the protobuf form
/// verifies as the YAML artifact does with the parse of its carrier that
/// the conversion used, under every key set and every option
/// set.
pub proof fn lemma_proto_form_verifies_as_yaml(
    wire: Seq<u8>,
    yaml: Seq<u8>,
    parsed: Result<SignatureDocument, CoreError>,
    keys: PublicKeys,
    options: VerifierOptions,
)
    requires
        proto_transcript_pre_verifies_as(wire, yaml, parsed),
    ensures
        state_after_pre_verify(proto_pre_verify(wire), ArtifactForm::Proto, keys, options)
            == state_after_pre_verify(yaml_pre_verify(yaml, false, parsed), ArtifactForm::Yaml, keys, options),
{
}

} // verus!
