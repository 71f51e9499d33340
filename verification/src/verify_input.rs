//! Verification entry points over complete encoded artifacts of either
//! form. The YAML form needs the signature document parsed from its
//! carrier; a [`SignatureDocumentParser`] supplies that parse.

use vstd::prelude::*;
use crate::error::CoreError;
use crate::resource::{
    error_facts, exceeds, ArtifactResourceError, ArtifactResourceErrorKind, ArtifactResourceForm,
    ArtifactResourceLimits,
};
use crate::signature_doc::SignatureDocument;
use crate::verify::{
    doc_keyid, failed_view, finish_yaml_pre_verify, pre_verify_proto, pre_verify_view,
    pre_verify_yaml_structure, proto_pre_verify, result_view, state_after_pre_verify, state_view,
    verify_after_pre_verify, yaml_metadata, yaml_structure_stage, ArtifactForm, InvocationError,
    PreVerifyOutcome, PreVerifyResponse, PreVerifyView, PublicKeys, StateView, VerifierOptions,
    VerifierState, VerifyResult, YamlPreVerifyStage,
};

verus! {

/// Parses a markerless YAML signature carrier as a signature document.
pub trait SignatureDocumentParser {
    /// The signature document that `carrier` holds, or why it holds none.
    fn parse_signature_document(&self, carrier: &[u8]) -> Result<SignatureDocument, CoreError>;
}

/// The pre-verification view of a YAML carrier's parse result, with the
/// payload kept from the structural stage.
pub open spec fn yaml_view_from_parse(
    payload: Seq<u8>,
    parsed: Result<SignatureDocument, CoreError>,
) -> PreVerifyView {
    match parsed {
        Err(_) => failed_view(PreVerifyOutcome::MetadataParseFailure, ArtifactForm::Yaml),
        Ok(d) => match yaml_metadata(d.schema@, d.alg@, doc_keyid(d), d.signature@) {
            Ok(m) => PreVerifyView {
                outcome: PreVerifyOutcome::Extracted,
                form: ArtifactForm::Yaml,
                payload: Some(payload),
                metadata: Some(m),
            },
            Err(o) => failed_view(o, ArtifactForm::Yaml),
        },
    }
}

/// YAML pre-verification of `artifact`, given what the signature-document
/// parse of its carrier gave.
pub open spec fn yaml_pre_verify(
    artifact: Seq<u8>,
    allow_unsigned: bool,
    parsed: Result<SignatureDocument, CoreError>,
) -> PreVerifyView {
    match yaml_structure_stage(artifact, allow_unsigned) {
        Err(o) => failed_view(o, ArtifactForm::Yaml),
        Ok((p, _)) => yaml_view_from_parse(p, parsed),
    }
}

/// Whether `parser` may answer the parse of the carrier bytes `carrier`
/// with `parsed`: some call of its parse with those bytes returns `parsed`.
pub open spec fn parse_answer<P: SignatureDocumentParser>(
    parser: &P,
    carrier: Seq<u8>,
    parsed: Result<SignatureDocument, CoreError>,
) -> bool {
    exists|c: &[u8]|
        c@ == carrier && #[trigger] call_ensures(P::parse_signature_document, (parser, c), parsed)
}

/// Whether `v` is the YAML pre-verification view of `artifact`: the
/// structural verdict, or, where the structure holds, the view of the
/// parser's answer for exactly the artifact's signature carrier.
pub open spec fn yaml_pre_verify_by<P: SignatureDocumentParser>(
    v: PreVerifyView,
    artifact: Seq<u8>,
    allow_unsigned: bool,
    parser: &P,
) -> bool {
    match yaml_structure_stage(artifact, allow_unsigned) {
        Err(o) => v == failed_view(o, ArtifactForm::Yaml),
        Ok((p, c)) => exists|parsed: Result<SignatureDocument, CoreError>|
            #[trigger] parse_answer(parser, c, parsed) && v == yaml_view_from_parse(p, parsed),
    }
}

/// Whether `v` is the pre-verification view of `input` in `form`; the YAML
/// form goes by `parser`'s answer on the signature carrier.
pub open spec fn pre_verify_is<P: SignatureDocumentParser>(
    v: PreVerifyView,
    input: Seq<u8>,
    form: ArtifactForm,
    allow_unsigned: bool,
    parser: &P,
) -> bool {
    match form {
        ArtifactForm::Yaml => yaml_pre_verify_by(v, input, allow_unsigned, parser),
        ArtifactForm::Proto => v == proto_pre_verify(input),
    }
}

/// Structural and metadata pre-verification of a YAML artifact; no keys and
/// no cryptography.
pub fn pre_verify_yaml<P: SignatureDocumentParser>(
    artifact: &[u8],
    allow_unsigned: bool,
    parser: &P,
) -> (r: PreVerifyResponse)
    ensures
        pre_verify_is(pre_verify_view(r), artifact@, ArtifactForm::Yaml, allow_unsigned, parser),
        r.parser_observations@.len() == 0,
{
    match pre_verify_yaml_structure(artifact, allow_unsigned) {
        YamlPreVerifyStage::Done(d) => {
            PreVerifyResponse {
                outcome: d.outcome,
                form: d.form,
                unverified_payload_bytes: d.unverified_payload_bytes,
                unverified_signature: d.unverified_signature,
                parser_observations: Vec::new(),
            }
        },
        YamlPreVerifyStage::NeedsSignatureDocument { payload, carrier } => {
            let carrier_bytes = carrier.as_slice();
            let parsed = parser.parse_signature_document(carrier_bytes);
            let ghost parsed_ghost = parsed;
            assert(parse_answer(parser, carrier@, parsed_ghost));
            let r = finish_yaml_pre_verify(payload, parsed);
            assert(pre_verify_view(r) == yaml_pre_verify(artifact@, allow_unsigned, parsed_ghost));
            r
        },
    }
}

/// YAML pre-verification after applying an explicit input policy.
pub fn pre_verify_yaml_with_resource_limits<P: SignatureDocumentParser>(
    artifact: &[u8],
    allow_unsigned: bool,
    limits: &ArtifactResourceLimits,
    parser: &P,
) -> (r: Result<PreVerifyResponse, ArtifactResourceError>)
    ensures
        exceeds(limits@, artifact@.len() as int) ==> (r matches Err(e) && e@ == error_facts(
            ArtifactResourceErrorKind::InputArtifactTooLarge,
            ArtifactResourceForm::Yaml,
            limits@,
            Some(artifact@.len() as usize),
        )),
        !exceeds(limits@, artifact@.len() as int) ==> (r matches Ok(p) && pre_verify_is(
            pre_verify_view(p),
            artifact@,
            ArtifactForm::Yaml,
            allow_unsigned,
            parser,
        )),
{
    match limits.check_input_size(ArtifactResourceForm::Yaml, artifact) {
        Err(e) => Err(e),
        Ok(_) => Ok(pre_verify_yaml(artifact, allow_unsigned, parser)),
    }
}

/// Structural and metadata pre-verification of an artifact in `form`.
pub fn pre_verify<P: SignatureDocumentParser>(
    input_bytes: &[u8],
    form: ArtifactForm,
    allow_unsigned: bool,
    include_parser_observations: bool,
    parser: &P,
) -> (r: PreVerifyResponse)
    ensures
        pre_verify_is(pre_verify_view(r), input_bytes@, form, allow_unsigned, parser),
        r.parser_observations@.len() == 0,
{
    match form {
        ArtifactForm::Yaml => pre_verify_yaml(input_bytes, allow_unsigned, parser),
        ArtifactForm::Proto => {
            let r = pre_verify_proto(input_bytes);
            PreVerifyResponse {
                outcome: r.outcome,
                form: r.form,
                unverified_payload_bytes: r.unverified_payload_bytes,
                unverified_signature: r.unverified_signature,
                parser_observations: Vec::new(),
            }
        },
    }
}

/// The resource form of an artifact form.
pub open spec fn artifact_resource_form(form: ArtifactForm) -> ArtifactResourceForm {
    match form {
        ArtifactForm::Yaml => ArtifactResourceForm::Yaml,
        ArtifactForm::Proto => ArtifactResourceForm::Protobuf,
    }
}

pub(crate) fn resource_form(form: ArtifactForm) -> (r: ArtifactResourceForm)
    ensures
        r == artifact_resource_form(form),
{
    match form {
        ArtifactForm::Yaml => ArtifactResourceForm::Yaml,
        ArtifactForm::Proto => ArtifactResourceForm::Protobuf,
    }
}

/// Whether the complete input passes the policy; if not, `r` reports it.
pub open spec fn input_rejected<T>(
    r: Result<T, ArtifactResourceError>,
    input: Seq<u8>,
    form: ArtifactForm,
    limits: Option<usize>,
) -> bool {
    exceeds(limits, input.len() as int) && (r matches Err(e) && e@ == error_facts(
        ArtifactResourceErrorKind::InputArtifactTooLarge,
        artifact_resource_form(form),
        limits,
        Some(input.len() as usize),
    ))
}

/// Pre-verification after applying an explicit input policy.
pub fn pre_verify_with_resource_limits<P: SignatureDocumentParser>(
    input_bytes: &[u8],
    form: ArtifactForm,
    allow_unsigned: bool,
    include_parser_observations: bool,
    limits: &ArtifactResourceLimits,
    parser: &P,
) -> (r: Result<PreVerifyResponse, ArtifactResourceError>)
    ensures
        exceeds(limits@, input_bytes@.len() as int) ==> input_rejected(r, input_bytes@, form, limits@),
        !exceeds(limits@, input_bytes@.len() as int) ==> (r matches Ok(p) && pre_verify_is(
            pre_verify_view(p),
            input_bytes@,
            form,
            allow_unsigned,
            parser,
        )),
{
    match limits.check_input_size(resource_form(form), input_bytes) {
        Err(e) => Err(e),
        Ok(_) => Ok(pre_verify(input_bytes, form, allow_unsigned, include_parser_observations, parser)),
    }
}

/// Whether a pre-verification outcome lets verification proceed.
pub open spec fn can_proceed(outcome: PreVerifyOutcome, form: ArtifactForm, allow_unsigned: bool) -> bool {
    outcome == PreVerifyOutcome::Extracted || (outcome == PreVerifyOutcome::Unsigned && allow_unsigned
        && form == ArtifactForm::Yaml)
}

/// Whether pre-verification of an artifact in `form` lets verification
/// proceed; no keys and no cryptography.
pub fn can_pre_verify<P: SignatureDocumentParser>(
    input_bytes: &[u8],
    form: ArtifactForm,
    allow_unsigned: bool,
    parser: &P,
) -> (r: bool)
    ensures
        exists|v: PreVerifyView|
            #[trigger] pre_verify_is(v, input_bytes@, form, allow_unsigned, parser) && r == can_proceed(
                v.outcome,
                form,
                allow_unsigned,
            ),
{
    let pre = pre_verify(input_bytes, form, allow_unsigned, false, parser);
    let r = crate::verify::can_pre_verify_outcome(pre.outcome, form, allow_unsigned);
    assert(pre_verify_is(pre_verify_view(pre), input_bytes@, form, allow_unsigned, parser) && r == can_proceed(
        pre_verify_view(pre).outcome,
        form,
        allow_unsigned,
    ));
    r
}

/// [`can_pre_verify`] after applying an explicit input policy.
pub fn can_pre_verify_with_resource_limits<P: SignatureDocumentParser>(
    input_bytes: &[u8],
    form: ArtifactForm,
    allow_unsigned: bool,
    limits: &ArtifactResourceLimits,
    parser: &P,
) -> (r: Result<bool, ArtifactResourceError>)
    ensures
        exceeds(limits@, input_bytes@.len() as int) ==> input_rejected(r, input_bytes@, form, limits@),
        !exceeds(limits@, input_bytes@.len() as int) ==> (r matches Ok(b) && exists|v: PreVerifyView|
            #[trigger] pre_verify_is(v, input_bytes@, form, allow_unsigned, parser) && b == can_proceed(
                v.outcome,
                form,
                allow_unsigned,
            )),
{
    match limits.check_input_size(resource_form(form), input_bytes) {
        Err(e) => Err(e),
        Ok(_) => Ok(can_pre_verify(input_bytes, form, allow_unsigned, parser)),
    }
}

/// Whether `r` is what verifying `input` in `form` yields: invalid
/// parameters first, then the verification that follows pre-verification
/// (which never admits an unsigned artifact).
pub open spec fn verify_input_is<P: SignatureDocumentParser>(
    r: Result<StateView, InvocationError>,
    input: Seq<u8>,
    form: ArtifactForm,
    keys: PublicKeys,
    options: VerifierOptions,
    parser: &P,
) -> bool {
    if options.algorithm_parameters@.len() > 0 {
        r == Err::<StateView, InvocationError>(InvocationError::InvalidAlgorithmParameters)
    } else {
        exists|v: PreVerifyView|
            #[trigger] pre_verify_is(v, input, form, false, parser) && r == state_after_pre_verify(
                v,
                form,
                keys,
                options,
            )
    }
}

pub open spec fn verify_result_view(r: Result<VerifyResult, InvocationError>) -> Result<
    StateView,
    InvocationError,
> {
    match r {
        Ok(v) => Ok(state_view(v.state)),
        Err(e) => Err(e),
    }
}

/// Verify an artifact in `form`, with the parser observations when asked.
pub fn verify_with_metadata<P: SignatureDocumentParser>(
    input_bytes: &[u8],
    form: ArtifactForm,
    keys: &PublicKeys,
    options: VerifierOptions,
    include_parser_observations: bool,
    parser: &P,
) -> (r: Result<VerifyResult, InvocationError>)
    ensures
        verify_input_is(verify_result_view(r), input_bytes@, form, *keys, options, parser),
{
    if options.algorithm_parameters.len() > 0 {
        return Err(InvocationError::InvalidAlgorithmParameters);
    }
    let pre = pre_verify(input_bytes, form, false, include_parser_observations, parser);
    let ghost v = pre_verify_view(pre);
    let r = verify_after_pre_verify(&pre, form, keys, options, include_parser_observations);
    assert(pre_verify_is(v, input_bytes@, form, false, parser) && verify_result_view(r) == state_after_pre_verify(
        v,
        form,
        *keys,
        options,
    ));
    r
}

/// [`verify_with_metadata`] after applying an explicit input policy.
pub fn verify_with_metadata_and_resource_limits<P: SignatureDocumentParser>(
    input_bytes: &[u8],
    form: ArtifactForm,
    keys: &PublicKeys,
    options: VerifierOptions,
    include_parser_observations: bool,
    limits: &ArtifactResourceLimits,
    parser: &P,
) -> (r: Result<Result<VerifyResult, InvocationError>, ArtifactResourceError>)
    ensures
        exceeds(limits@, input_bytes@.len() as int) ==> input_rejected(r, input_bytes@, form, limits@),
        !exceeds(limits@, input_bytes@.len() as int) ==> (r matches Ok(v) && verify_input_is(
            verify_result_view(v),
            input_bytes@,
            form,
            *keys,
            options,
            parser,
        )),
{
    match limits.check_input_size(resource_form(form), input_bytes) {
        Err(e) => Err(e),
        Ok(_) => Ok(
            verify_with_metadata(input_bytes, form, keys, options, include_parser_observations, parser),
        ),
    }
}

/// Verify an artifact in `form`.
pub fn verify<P: SignatureDocumentParser>(
    input_bytes: &[u8],
    form: ArtifactForm,
    keys: &PublicKeys,
    options: VerifierOptions,
    parser: &P,
) -> (r: Result<VerifierState, InvocationError>)
    ensures
        verify_input_is(result_view(r), input_bytes@, form, *keys, options, parser),
{
    match verify_with_metadata(input_bytes, form, keys, options, false, parser) {
        Ok(v) => Ok(v.state),
        Err(e) => Err(e),
    }
}

/// [`verify`] after applying an explicit input policy.
pub fn verify_with_resource_limits<P: SignatureDocumentParser>(
    input_bytes: &[u8],
    form: ArtifactForm,
    keys: &PublicKeys,
    options: VerifierOptions,
    limits: &ArtifactResourceLimits,
    parser: &P,
) -> (r: Result<Result<VerifierState, InvocationError>, ArtifactResourceError>)
    ensures
        exceeds(limits@, input_bytes@.len() as int) ==> input_rejected(r, input_bytes@, form, limits@),
        !exceeds(limits@, input_bytes@.len() as int) ==> (r matches Ok(v) && verify_input_is(
            result_view(v),
            input_bytes@,
            form,
            *keys,
            options,
            parser,
        )),
{
    match limits.check_input_size(resource_form(form), input_bytes) {
        Err(e) => Err(e),
        Ok(_) => Ok(verify(input_bytes, form, keys, options, parser)),
    }
}

/// Verify a YAML artifact.
pub fn verify_yaml<P: SignatureDocumentParser>(
    artifact: &[u8],
    keys: &PublicKeys,
    options: VerifierOptions,
    parser: &P,
) -> (r: Result<VerifierState, InvocationError>)
    ensures
        verify_input_is(result_view(r), artifact@, ArtifactForm::Yaml, *keys, options, parser),
{
    verify(artifact, ArtifactForm::Yaml, keys, options, parser)
}

/// Verify a YAML artifact after applying an explicit input policy.
pub fn verify_yaml_with_resource_limits<P: SignatureDocumentParser>(
    artifact: &[u8],
    keys: &PublicKeys,
    options: VerifierOptions,
    limits: &ArtifactResourceLimits,
    parser: &P,
) -> (r: Result<Result<VerifierState, InvocationError>, ArtifactResourceError>)
    ensures
        exceeds(limits@, artifact@.len() as int) ==> input_rejected(
            r,
            artifact@,
            ArtifactForm::Yaml,
            limits@,
        ),
        !exceeds(limits@, artifact@.len() as int) ==> (r matches Ok(v) && verify_input_is(
            result_view(v),
            artifact@,
            ArtifactForm::Yaml,
            *keys,
            options,
            parser,
        )),
{
    verify_with_resource_limits(artifact, ArtifactForm::Yaml, keys, options, limits, parser)
}

} // verus!
