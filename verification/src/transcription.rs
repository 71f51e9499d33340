//! Transcription: bytes-only compose and decompose of the YAML and protobuf
//! envelope forms.

use vstd::prelude::*;
use vstd::slice::slice_to_vec;
use vstd::utf8::valid_utf8;
use crate::bytes::append_bytes;
use crate::conformance::OuterConformance;
use crate::decomposition::{
    decompose_artifact, decomposition_of, is_line_start, is_marker_at, last_marker,
    last_marker_below, marker_len, marker_len_at, DecompositionOutcome,
};
use crate::payload::{bom_at_zero, valid_payload, validate_payload_stream};
use crate::pb_error::{check_encoded_message_size, EncodeError, EncodeErrorKind, MAX_MESSAGE_BYTES};
use crate::proto_outer::{
    compose_proto_outer, decompose_proto_outer, outer_wire, outer_wire_len,
    proto_outer_decomposition, ProtoOuterDecomposeOutcome,
};
use crate::resource::{
    error_facts, exceeds, ArtifactResourceError, ArtifactResourceErrorKind, ArtifactResourceForm,
    ArtifactResourceLimits,
};
use crate::varint::varint_len;

verus! {

/// Envelope form.
#[derive(Debug, Clone, Copy, PartialEq, Eq, Hash, Structural)]
pub enum TranscriptionForm {
    Yaml,
    Protobuf,
}

/// Structural outcome of decomposition.
#[derive(Debug, Clone, Copy, PartialEq, Eq, Hash, Structural)]
pub enum DecomposeOutcome {
    /// Payload and signature carrier were recovered.
    Recovered,
    /// No signing attempt.
    Unsigned,
    /// A signing attempt that is structurally malformed.
    MalformedAttemptedSigned,
}

/// Request-shape failure.
#[derive(Debug, Clone, Copy, PartialEq, Eq, Hash, Structural)]
pub enum TranscriberInvocationError {
    InvalidOrUnsupportedForm,
    InvalidOrUnsupportedOuterConformance,
}

/// Compose-time failure after invocation validation.
#[derive(Debug, Clone, Copy, PartialEq, Eq, Hash, Structural)]
pub enum TranscriberError {
    /// The payload violates the YAML-envelope payload rules.
    InvalidPayloadBytes,
    /// The signature carrier contains a constrained marker at a line start.
    InvalidSignatureCarrier,
}

/// Successful compose output.
#[derive(Debug, Clone, PartialEq, Eq)]
pub struct ComposeSuccess {
    pub artifact: Vec<u8>,
    pub form: TranscriptionForm,
}

/// Unified compose result.
#[derive(Debug)]
pub enum ComposeOutcome {
    Success(ComposeSuccess),
    Invocation(TranscriberInvocationError),
    Error(TranscriberError),
}

/// Structural decompose output.
#[derive(Debug, Clone, PartialEq, Eq)]
pub struct DecomposeStructuralResult {
    pub outcome: DecomposeOutcome,
    pub payload: Option<Vec<u8>>,
    pub signature_carrier: Option<Vec<u8>>,
    pub detail: Option<String>,
}

/// Unified decompose result.
#[derive(Debug)]
pub enum DecomposeResponse {
    Shape(DecomposeStructuralResult),
    Invocation(TranscriberInvocationError),
}

/// Inputs to compose.
pub struct ComposeRequest<'a> {
    pub payload: &'a [u8],
    pub signature_carrier: &'a [u8],
    pub form: TranscriptionForm,
}

/// Inputs to decompose. `outer_conformance` is `Some` for protobuf and
/// `None` for YAML.
pub struct DecomposeRequest<'a> {
    pub artifact: &'a [u8],
    pub form: TranscriptionForm,
    pub outer_conformance: Option<OuterConformance>,
}

/// The YAML stream marker `---` LF.
pub open spec fn yaml_marker() -> Seq<u8> {
    seq![0x2Du8, 0x2D, 0x2D, 0x0A]
}

/// The canonical YAML envelope: payload, marker, carrier.
pub open spec fn yaml_envelope(payload: Seq<u8>, carrier: Seq<u8>) -> Seq<u8> {
    payload + yaml_marker() + carrier
}

/// Whether a constrained marker (`---` at a line start followed by LF or
/// CRLF) occurs anywhere in `c`.
pub open spec fn has_constrained_marker(c: Seq<u8>) -> bool {
    exists|j: int| 0 <= j < c.len() && #[trigger] is_marker_at(c, j)
}

/// What compose produces for `payload` and `carrier` in `form`.
pub open spec fn compose_result(payload: Seq<u8>, carrier: Seq<u8>, form: TranscriptionForm) -> Result<
    Seq<u8>,
    TranscriberError,
> {
    match form {
        TranscriptionForm::Yaml => if !valid_payload(payload) {
            Err(TranscriberError::InvalidPayloadBytes)
        } else if has_constrained_marker(carrier) {
            Err(TranscriberError::InvalidSignatureCarrier)
        } else {
            Ok(yaml_envelope(payload, carrier))
        },
        TranscriptionForm::Protobuf => Ok(outer_wire(payload, carrier)),
    }
}

/// Whether `r` reports `expected` for a request in `form`.
pub open spec fn compose_outcome_is(
    r: ComposeOutcome,
    expected: Result<Seq<u8>, TranscriberError>,
    form: TranscriptionForm,
) -> bool {
    match r {
        ComposeOutcome::Success(s) => expected == Ok::<Seq<u8>, TranscriberError>(s.artifact@)
            && s.form == form,
        ComposeOutcome::Error(e) => expected == Err::<Seq<u8>, TranscriberError>(e),
        ComposeOutcome::Invocation(_) => false,
    }
}

/// The abstract view of a decompose response.
pub enum DecomposeView {
    Invocation(TranscriberInvocationError),
    Shape(DecomposeOutcome, Option<Seq<u8>>, Option<Seq<u8>>),
}

pub open spec fn opt_bytes(o: Option<Vec<u8>>) -> Option<Seq<u8>> {
    match o {
        Some(v) => Some(v@),
        None => None,
    }
}

/// Whether `r` reports `expected` (with no detail text).
pub open spec fn decompose_response_is(r: DecomposeResponse, expected: DecomposeView) -> bool {
    match r {
        DecomposeResponse::Invocation(e) => expected == DecomposeView::Invocation(e),
        DecomposeResponse::Shape(s) => s.detail is None && expected == DecomposeView::Shape(
            s.outcome,
            opt_bytes(s.payload),
            opt_bytes(s.signature_carrier),
        ),
    }
}

/// YAML-form decomposition of `a`.
pub open spec fn yaml_decompose_view(a: Seq<u8>) -> DecomposeView {
    match decomposition_of(a) {
        DecompositionOutcome::Unsigned => DecomposeView::Shape(
            DecomposeOutcome::Unsigned,
            None,
            None,
        ),
        DecompositionOutcome::Malformed => DecomposeView::Shape(
            DecomposeOutcome::MalformedAttemptedSigned,
            None,
            None,
        ),
        DecompositionOutcome::Signed(r) => DecomposeView::Shape(
            DecomposeOutcome::Recovered,
            Some(a.subrange(0, r.payload.end as int)),
            Some(a.subrange(r.signature_carrier.start as int, a.len() as int)),
        ),
    }
}

/// Protobuf-form decomposition of `a` under `mode`.
pub open spec fn proto_decompose_view(a: Seq<u8>, mode: OuterConformance) -> DecomposeView {
    match proto_outer_decomposition(a, mode) {
        None => DecomposeView::Shape(DecomposeOutcome::MalformedAttemptedSigned, None, None),
        Some((p, c)) => DecomposeView::Shape(DecomposeOutcome::Recovered, Some(p), Some(c)),
    }
}

/// What decompose reports for `a` in `form` with the given outer policy.
pub open spec fn decompose_view(
    a: Seq<u8>,
    form: TranscriptionForm,
    outer: Option<OuterConformance>,
) -> DecomposeView {
    match form {
        TranscriptionForm::Yaml => match outer {
            Some(_) => DecomposeView::Invocation(
                TranscriberInvocationError::InvalidOrUnsupportedOuterConformance,
            ),
            None => yaml_decompose_view(a),
        },
        TranscriptionForm::Protobuf => match outer {
            None => DecomposeView::Invocation(
                TranscriberInvocationError::InvalidOrUnsupportedOuterConformance,
            ),
            Some(mode) => proto_decompose_view(a, mode),
        },
    }
}

/// Resource diagnostics form of a transcription form.
pub open spec fn resource_form_of(form: TranscriptionForm) -> ArtifactResourceForm {
    match form {
        TranscriptionForm::Yaml => ArtifactResourceForm::Yaml,
        TranscriptionForm::Protobuf => ArtifactResourceForm::Protobuf,
    }
}

/// The resource diagnostics form for `form`.
pub fn resource_form(form: TranscriptionForm) -> (r: ArtifactResourceForm)
    ensures
        r == resource_form_of(form),
{
    match form {
        TranscriptionForm::Yaml => ArtifactResourceForm::Yaml,
        TranscriptionForm::Protobuf => ArtifactResourceForm::Protobuf,
    }
}

/// Whether this build supports `form`; both envelope forms are supported.
pub fn form_supported(form: TranscriptionForm) -> (r: bool)
    ensures
        r,
{
    match form {
        TranscriptionForm::Yaml => true,
        TranscriptionForm::Protobuf => true,
    }
}

/// Whether this build supports outer conformance `mode`; both are supported.
pub fn outer_conformance_supported(mode: OuterConformance) -> (r: bool)
    ensures
        r,
{
    match mode {
        OuterConformance::Strict => true,
        OuterConformance::SignatureStrict => true,
    }
}

fn validate_compose_invocation(req: &ComposeRequest<'_>) -> (r: Result<
    (),
    TranscriberInvocationError,
>)
    ensures
        r is Ok,
{
    if !form_supported(req.form) {
        return Err(TranscriberInvocationError::InvalidOrUnsupportedForm);
    }
    Ok(())
}

fn validate_decompose_invocation(req: &DecomposeRequest<'_>) -> (r: Result<
    OuterConformance,
    TranscriberInvocationError,
>)
    ensures
        decompose_view(req.artifact@, req.form, req.outer_conformance) matches DecomposeView::Invocation(
            e,
        ) ==> r == Err::<OuterConformance, TranscriberInvocationError>(e),
        !(decompose_view(req.artifact@, req.form, req.outer_conformance) is Invocation) ==> (r matches Ok(
            m,
        ) && (req.form == TranscriptionForm::Protobuf ==> req.outer_conformance == Some(m))),
{
    if !form_supported(req.form) {
        return Err(TranscriberInvocationError::InvalidOrUnsupportedForm);
    }
    match req.form {
        TranscriptionForm::Yaml => {
            if req.outer_conformance.is_some() {
                return Err(TranscriberInvocationError::InvalidOrUnsupportedOuterConformance);
            }
            Ok(OuterConformance::Strict)
        },
        TranscriptionForm::Protobuf => {
            let oc = match req.outer_conformance {
                Some(oc) => oc,
                None => {
                    return Err(TranscriberInvocationError::InvalidOrUnsupportedOuterConformance)
                },
            };
            if !outer_conformance_supported(oc) {
                return Err(TranscriberInvocationError::InvalidOrUnsupportedOuterConformance);
            }
            Ok(oc)
        },
    }
}

/// Whether the carrier contains a constrained marker at a line start.
pub fn contains_constrained_marker(carrier: &[u8]) -> (r: bool)
    ensures
        r == has_constrained_marker(carrier@),
{
    let mut j: usize = 0;
    while j < carrier.len()
        invariant
            j <= carrier.len(),
            forall|k: int| 0 <= k < j ==> !#[trigger] is_marker_at(carrier@, k),
        decreases carrier.len() - j,
    {
        if marker_len(carrier, j).is_some() {
            assert(is_marker_at(carrier@, j as int));
            return true;
        }
        j = j + 1;
    }
    false
}

/// Assemble the YAML envelope or the raw outer protobuf for a validated
/// request.
fn compose_after_invocation_validation(req: &ComposeRequest<'_>) -> (r: ComposeOutcome)
    requires
        req.form == TranscriptionForm::Protobuf ==> outer_wire(
            req.payload@,
            req.signature_carrier@,
        ).len() <= usize::MAX,
    ensures
        compose_outcome_is(
            r,
            compose_result(req.payload@, req.signature_carrier@, req.form),
            req.form,
        ),
{
    let artifact = match req.form {
        TranscriptionForm::Yaml => {
            if validate_payload_stream(req.payload).is_err() {
                return ComposeOutcome::Error(TranscriberError::InvalidPayloadBytes);
            }
            if contains_constrained_marker(req.signature_carrier) {
                return ComposeOutcome::Error(TranscriberError::InvalidSignatureCarrier);
            }
            let mut out = slice_to_vec(req.payload);
            out.push(0x2D);
            out.push(0x2D);
            out.push(0x2D);
            out.push(0x0A);
            append_bytes(&mut out, req.signature_carrier);
            assert(out@ =~= yaml_envelope(req.payload@, req.signature_carrier@));
            out
        },
        TranscriptionForm::Protobuf => compose_proto_outer(req.payload, req.signature_carrier),
    };
    ComposeOutcome::Success(ComposeSuccess { artifact, form: req.form })
}

/// Assemble envelope-form bytes from payload and signature-carrier bytes.
/// No complete-output byte limit is applied.
pub fn compose(req: &ComposeRequest<'_>) -> (r: ComposeOutcome)
    requires
        req.form == TranscriptionForm::Protobuf ==> outer_wire(
            req.payload@,
            req.signature_carrier@,
        ).len() <= usize::MAX,
    ensures
        compose_outcome_is(
            r,
            compose_result(req.payload@, req.signature_carrier@, req.form),
            req.form,
        ),
{
    match validate_compose_invocation(req) {
        Err(e) => return ComposeOutcome::Invocation(e),
        Ok(()) => {},
    }
    compose_after_invocation_validation(req)
}

/// The exact size of the YAML envelope.
pub open spec fn yaml_envelope_len(payload_len: nat, carrier_len: nat) -> nat {
    payload_len + 4 + carrier_len
}

/// Exact outer protobuf size from the two value lengths, checked against the
/// resource policy and then the protobuf size ceiling.
pub fn checked_proto_outer_size_from_lengths(
    payload_len: u64,
    carrier_len: u64,
    limits: &ArtifactResourceLimits,
) -> (r: Result<Result<usize, EncodeError>, ArtifactResourceError>)
    ensures
        ({
            let n = outer_wire_len(payload_len as nat, carrier_len as nat);
            &&& n > usize::MAX ==> (r matches Err(e) && e@ == error_facts(
                ArtifactResourceErrorKind::SizeComputationOverflow,
                ArtifactResourceForm::Protobuf,
                limits@,
                None,
            ))
            &&& n <= usize::MAX && exceeds(limits@, n as int) ==> (r matches Err(e) && e@
                == error_facts(
                ArtifactResourceErrorKind::OutputArtifactTooLarge,
                ArtifactResourceForm::Protobuf,
                limits@,
                Some(n as usize),
            ))
            &&& n <= usize::MAX && !exceeds(limits@, n as int) && n > MAX_MESSAGE_BYTES ==> (r matches Ok(
                Err(e),
            ) && e@ == EncodeErrorKind::MessageTooLarge)
            &&& n <= usize::MAX && !exceeds(limits@, n as int) && n <= MAX_MESSAGE_BYTES ==> r
                == Ok::<Result<usize, EncodeError>, ArtifactResourceError>(
                Ok::<usize, EncodeError>(n as usize),
            )
        }),
{
    let payload_field = match 1u64.checked_add(varint_len(payload_len)) {
        Some(s) => s.checked_add(payload_len),
        None => None,
    };
    let payload_field = match payload_field {
        Some(s) => s,
        None => return Err(limits.size_computation_overflow(ArtifactResourceForm::Protobuf)),
    };
    let carrier_field = match 1u64.checked_add(varint_len(carrier_len)) {
        Some(s) => s.checked_add(carrier_len),
        None => None,
    };
    let carrier_field = match carrier_field {
        Some(s) => s,
        None => return Err(limits.size_computation_overflow(ArtifactResourceForm::Protobuf)),
    };
    let raw_size = match payload_field.checked_add(carrier_field) {
        Some(s) => s,
        None => return Err(limits.size_computation_overflow(ArtifactResourceForm::Protobuf)),
    };
    if raw_size > usize::MAX as u64 {
        return Err(limits.size_computation_overflow(ArtifactResourceForm::Protobuf));
    }
    let encoded_size = raw_size as usize;
    match limits.check_output_size(ArtifactResourceForm::Protobuf, encoded_size) {
        Ok(_) => {},
        Err(e) => return Err(e),
    }
    Ok(check_encoded_message_size(encoded_size))
}

/// [`checked_proto_outer_size_from_lengths`] on slice lengths.
pub fn checked_proto_outer_size(
    payload_len: usize,
    carrier_len: usize,
    limits: &ArtifactResourceLimits,
) -> (r: Result<Result<usize, EncodeError>, ArtifactResourceError>)
    ensures
        ({
            let n = outer_wire_len(payload_len as nat, carrier_len as nat);
            &&& n > usize::MAX ==> (r matches Err(e) && e@ == error_facts(
                ArtifactResourceErrorKind::SizeComputationOverflow,
                ArtifactResourceForm::Protobuf,
                limits@,
                None,
            ))
            &&& n <= usize::MAX && exceeds(limits@, n as int) ==> (r matches Err(e) && e@
                == error_facts(
                ArtifactResourceErrorKind::OutputArtifactTooLarge,
                ArtifactResourceForm::Protobuf,
                limits@,
                Some(n as usize),
            ))
            &&& n <= usize::MAX && !exceeds(limits@, n as int) && n > MAX_MESSAGE_BYTES ==> (r matches Ok(
                Err(e),
            ) && e@ == EncodeErrorKind::MessageTooLarge)
            &&& n <= usize::MAX && !exceeds(limits@, n as int) && n <= MAX_MESSAGE_BYTES ==> r
                == Ok::<Result<usize, EncodeError>, ArtifactResourceError>(
                Ok::<usize, EncodeError>(n as usize),
            )
        }),
{
    checked_proto_outer_size_from_lengths(payload_len as u64, carrier_len as u64, limits)
}

/// Exact output size of a compose request, checked against the policy.
fn check_compose_output_size(req: &ComposeRequest<'_>, limits: &ArtifactResourceLimits) -> (r:
    Result<Result<usize, EncodeError>, ArtifactResourceError>)
    ensures
        compose_size_verdict(req.payload@.len(), req.signature_carrier@.len(), req.form, limits@, r),
{
    match req.form {
        TranscriptionForm::Yaml => {
            let encoded_size = match req.payload.len().checked_add(4) {
                Some(s) => s.checked_add(req.signature_carrier.len()),
                None => None,
            };
            let encoded_size = match encoded_size {
                Some(s) => s,
                None => return Err(limits.size_computation_overflow(ArtifactResourceForm::Yaml)),
            };
            match limits.check_output_size(ArtifactResourceForm::Yaml, encoded_size) {
                Ok(_) => {},
                Err(e) => return Err(e),
            }
            Ok(Ok(encoded_size))
        },
        TranscriptionForm::Protobuf => {
            checked_proto_outer_size(req.payload.len(), req.signature_carrier.len(), limits)
        },
    }
}

/// The exact output size of a compose request in `form`.
pub open spec fn compose_output_len(p: nat, c: nat, form: TranscriptionForm) -> nat {
    match form {
        TranscriptionForm::Yaml => yaml_envelope_len(p, c),
        TranscriptionForm::Protobuf => outer_wire_len(p, c),
    }
}

/// The size checks of a compose request: an unrepresentable size, then the
/// resource policy, then (protobuf only) the protobuf size ceiling.
pub open spec fn compose_size_verdict(
    p: nat,
    c: nat,
    form: TranscriptionForm,
    limits: Option<usize>,
    r: Result<Result<usize, EncodeError>, ArtifactResourceError>,
) -> bool {
    let n = compose_output_len(p, c, form);
    let rf = resource_form_of(form);
    &&& n > usize::MAX ==> (r matches Err(e) && e@ == error_facts(
        ArtifactResourceErrorKind::SizeComputationOverflow,
        rf,
        limits,
        None,
    ))
    &&& n <= usize::MAX && exceeds(limits, n as int) ==> (r matches Err(e) && e@ == error_facts(
        ArtifactResourceErrorKind::OutputArtifactTooLarge,
        rf,
        limits,
        Some(n as usize),
    ))
    &&& n <= usize::MAX && !exceeds(limits, n as int) && form == TranscriptionForm::Protobuf && n
        > MAX_MESSAGE_BYTES ==> (r matches Ok(Err(e)) && e@ == EncodeErrorKind::MessageTooLarge)
    &&& n <= usize::MAX && !exceeds(limits, n as int) && (form == TranscriptionForm::Yaml || n
        <= MAX_MESSAGE_BYTES) ==> r == Ok::<Result<usize, EncodeError>, ArtifactResourceError>(
        Ok::<usize, EncodeError>(n as usize),
    )
}

/// Assemble envelope bytes after applying an explicit complete-output
/// policy. The exact size is checked before any component is inspected.
pub fn compose_with_resource_limits(req: &ComposeRequest<'_>, limits: &ArtifactResourceLimits) -> (r:
    Result<Result<ComposeOutcome, EncodeError>, ArtifactResourceError>)
    ensures
        ({
            let n = compose_output_len(req.payload@.len(), req.signature_carrier@.len(), req.form);
            let rf = resource_form_of(req.form);
            &&& n > usize::MAX ==> (r matches Err(e) && e@ == error_facts(
                ArtifactResourceErrorKind::SizeComputationOverflow,
                rf,
                limits@,
                None,
            ))
            &&& n <= usize::MAX && exceeds(limits@, n as int) ==> (r matches Err(e) && e@
                == error_facts(
                ArtifactResourceErrorKind::OutputArtifactTooLarge,
                rf,
                limits@,
                Some(n as usize),
            ))
            &&& n <= usize::MAX && !exceeds(limits@, n as int) && req.form
                == TranscriptionForm::Protobuf && n > MAX_MESSAGE_BYTES ==> (r matches Ok(Err(e))
                && e@ == EncodeErrorKind::MessageTooLarge)
            &&& n <= usize::MAX && !exceeds(limits@, n as int) && (req.form
                == TranscriptionForm::Yaml || n <= MAX_MESSAGE_BYTES) ==> (r matches Ok(Ok(o))
                && compose_outcome_is(
                o,
                compose_result(req.payload@, req.signature_carrier@, req.form),
                req.form,
            ))
        }),
{
    match validate_compose_invocation(req) {
        Err(e) => return Ok(Ok(ComposeOutcome::Invocation(e))),
        Ok(()) => {},
    }
    match check_compose_output_size(req, limits) {
        Err(e) => return Err(e),
        Ok(Err(e)) => return Ok(Err(e)),
        Ok(Ok(_)) => {},
    }
    proof {
        assert(outer_wire(req.payload@, req.signature_carrier@).len() == outer_wire_len(
            req.payload@.len(),
            req.signature_carrier@.len(),
        ));
    }
    Ok(Ok(compose_after_invocation_validation(req)))
}

/// YAML-form decomposition into owned payload and carrier.
pub fn decompose_yaml(artifact: &[u8]) -> (r: DecomposeResponse)
    ensures
        decompose_response_is(r, yaml_decompose_view(artifact@)),
{
    match decompose_artifact(artifact) {
        DecompositionOutcome::Unsigned => DecomposeResponse::Shape(
            DecomposeStructuralResult {
                outcome: DecomposeOutcome::Unsigned,
                payload: None,
                signature_carrier: None,
                detail: None,
            },
        ),
        DecompositionOutcome::Malformed => DecomposeResponse::Shape(
            DecomposeStructuralResult {
                outcome: DecomposeOutcome::MalformedAttemptedSigned,
                payload: None,
                signature_carrier: None,
                detail: None,
            },
        ),
        DecompositionOutcome::Signed(r) => {
            proof {
                crate::decomposition::lemma_last_marker_is_marker(
                    artifact@,
                    artifact@.len() as int,
                );
            }
            let payload = slice_to_vec(&artifact[0..r.payload.end]);
            let carrier = slice_to_vec(&artifact[r.signature_carrier.start..artifact.len()]);
            DecomposeResponse::Shape(
                DecomposeStructuralResult {
                    outcome: DecomposeOutcome::Recovered,
                    payload: Some(payload),
                    signature_carrier: Some(carrier),
                    detail: None,
                },
            )
        },
    }
}

/// Protobuf-form decomposition into owned payload and carrier.
pub fn decompose_proto(wire: &[u8], mode: OuterConformance) -> (r: DecomposeResponse)
    ensures
        decompose_response_is(r, proto_decompose_view(wire@, mode)),
{
    match decompose_proto_outer(wire, mode) {
        ProtoOuterDecomposeOutcome::Malformed => DecomposeResponse::Shape(
            DecomposeStructuralResult {
                outcome: DecomposeOutcome::MalformedAttemptedSigned,
                payload: None,
                signature_carrier: None,
                detail: None,
            },
        ),
        ProtoOuterDecomposeOutcome::Decomposed { payload, signature_carrier } => {
            DecomposeResponse::Shape(
                DecomposeStructuralResult {
                    outcome: DecomposeOutcome::Recovered,
                    payload: Some(payload),
                    signature_carrier: Some(signature_carrier),
                    detail: None,
                },
            )
        },
    }
}

/// Recover payload and signature-carrier bytes from an envelope. No size
/// limit is applied.
pub fn decompose(req: &DecomposeRequest<'_>) -> (r: DecomposeResponse)
    ensures
        decompose_response_is(r, decompose_view(req.artifact@, req.form, req.outer_conformance)),
{
    let outer = match validate_decompose_invocation(req) {
        Ok(o) => o,
        Err(e) => return DecomposeResponse::Invocation(e),
    };
    match req.form {
        TranscriptionForm::Yaml => decompose_yaml(req.artifact),
        TranscriptionForm::Protobuf => decompose_proto(req.artifact, outer),
    }
}

/// Recover payload and carrier after applying an explicit input policy; the
/// raw input length is checked before anything else.
pub fn decompose_with_resource_limits(
    req: &DecomposeRequest<'_>,
    limits: &ArtifactResourceLimits,
) -> (r: Result<DecomposeResponse, ArtifactResourceError>)
    ensures
        exceeds(limits@, req.artifact@.len() as int) ==> (r matches Err(e) && e@ == error_facts(
            ArtifactResourceErrorKind::InputArtifactTooLarge,
            resource_form_of(req.form),
            limits@,
            Some(req.artifact@.len() as usize),
        )),
        !exceeds(limits@, req.artifact@.len() as int) ==> (r matches Ok(d) && decompose_response_is(
            d,
            decompose_view(req.artifact@, req.form, req.outer_conformance),
        )),
{
    match limits.check_input_size(resource_form(req.form), req.artifact) {
        Err(e) => Err(e),
        Ok(_) => Ok(decompose(req)),
    }
}

/// The YAML marker is well-formed UTF-8.
proof fn lemma_marker_utf8()
    ensures
        valid_utf8(yaml_marker()),
{
    let b = yaml_marker();
    assert(b.subrange(0, 0) =~= Seq::<u8>::empty());
    assert(vstd::utf8::partial_valid_utf8(b, 0));
    vstd::utf8::partial_valid_utf8_extend_ascii_block(b, 0, 4);
    assert(b.subrange(0, 4) =~= b);
}

/// In the envelope `p + marker + c`, a marker at `t + k` (at or after the
/// carrier start `t`) is exactly a marker at `k` in the carrier.
proof fn lemma_carrier_marker_shift(p: Seq<u8>, c: Seq<u8>, k: int)
    requires
        valid_payload(p),
        0 <= k < c.len(),
    ensures
        is_marker_at(yaml_envelope(p, c), p.len() + 4 + k) == is_marker_at(c, k),
{
    let a = yaml_envelope(p, c);
    let t = p.len() + 4;
    assert(forall|i: int| 0 <= i < c.len() ==> a[t + i] == c[i]);
    assert(a[t - 1] == 0x0A);
    if k > 0 {
        assert(is_line_start(a, t + k) == is_line_start(c, k));
    }
}

/// The envelope of a valid payload and a well-formed UTF-8 carrier is
/// well-formed UTF-8 and does not start with a byte-order mark.
proof fn lemma_envelope_utf8(payload: Seq<u8>, carrier: Seq<u8>)
    requires
        valid_payload(payload),
        valid_utf8(carrier),
    ensures
        valid_utf8(yaml_envelope(payload, carrier)),
        !bom_at_zero(yaml_envelope(payload, carrier)),
{
    lemma_marker_utf8();
    vstd::utf8::valid_utf8_concat(payload, yaml_marker());
    vstd::utf8::valid_utf8_concat(payload + yaml_marker(), carrier);
    let a = yaml_envelope(payload, carrier);
    if payload.len() == 0 {
        assert(a[0] == 0x2D);
    } else if payload.len() < 3 {
        assert(a[payload.len() - 1] == 0x0A);
    } else {
        assert(a[0] == payload[0] && a[1] == payload[1] && a[2] == payload[2]);
    }
}

/// In the envelope, the last marker is the one just after the payload.
proof fn lemma_envelope_last_marker(payload: Seq<u8>, carrier: Seq<u8>)
    requires
        valid_payload(payload),
        !has_constrained_marker(carrier),
    ensures
        last_marker(yaml_envelope(payload, carrier)) == Some(payload.len() as int),
        marker_len_at(yaml_envelope(payload, carrier), payload.len() as int) == Some(4int),
{
    let a = yaml_envelope(payload, carrier);
    let m = payload.len() as int;
    let t = m + 4;
    assert(a[m] == 0x2D && a[m + 1] == 0x2D && a[m + 2] == 0x2D && a[m + 3] == 0x0A);
    if m > 0 {
        assert(a[m - 1] == payload.last());
    }
    assert(is_line_start(a, m));
    assert(marker_len_at(a, m) == Some(4int));
    assert forall|j: int| m + 1 <= j < a.len() implies !is_marker_at(a, j) by {
        if j >= t {
            lemma_carrier_marker_shift(payload, carrier, j - t);
            assert(!is_marker_at(carrier, j - t));
        }
    }
    crate::decomposition::lemma_last_marker_skip(a, m + 1, a.len() as int);
    assert(last_marker_below(a, m + 1) == Some(m));
}

/// Decomposing a YAML envelope composed from a valid payload and a
/// non-empty, well-formed UTF-8 carrier with no constrained marker gives back
/// the payload and the carrier.
pub proof fn lemma_yaml_compose_decompose_round_trip(payload: Seq<u8>, carrier: Seq<u8>)
    requires
        valid_payload(payload),
        valid_utf8(carrier),
        carrier.len() > 0,
        !has_constrained_marker(carrier),
        yaml_envelope(payload, carrier).len() <= usize::MAX,
    ensures
        compose_result(payload, carrier, TranscriptionForm::Yaml) == Ok::<
            Seq<u8>,
            TranscriberError,
        >(yaml_envelope(payload, carrier)),
        yaml_decompose_view(yaml_envelope(payload, carrier)) == DecomposeView::Shape(
            DecomposeOutcome::Recovered,
            Some(payload),
            Some(carrier),
        ),
{
    let a = yaml_envelope(payload, carrier);
    let m = payload.len() as int;
    let t = m + 4;
    lemma_envelope_utf8(payload, carrier);
    lemma_envelope_last_marker(payload, carrier);
    assert(decomposition_of(a) == DecompositionOutcome::Signed(
        crate::decomposition::ranges_of(m, t, a.len() as int),
    ));
    assert(a.subrange(0, m) =~= payload);
    assert(a.subrange(t, a.len() as int) =~= carrier);
}

} // verus!
