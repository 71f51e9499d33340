//! Verification of complete encoded artifacts with keys bound through a
//! local verification provider: pre-verification, then the provider
//! verification stage.

use vstd::prelude::*;
use crate::algorithm::AlgorithmId;
use crate::resource::{exceeds, ArtifactResourceError, ArtifactResourceLimits};
use crate::provider::{
    bound_key_view, bound_verifier, inner_key, provider_verdict_from_pre_verify, unqualified_key_view, unqualified_verifier,
    verify_pre_verified_with_bound_keys, ProviderPublicKeys, ProviderVerifier, ProviderVerifyingKey,
    UnqualifiedProviderPublicKeys,
};
use crate::verify::{
    pre_verify_view, result_view, ArtifactForm, InvocationError, PreVerifyOutcome, PreVerifyView,
    StateView, VerifierOptions, VerifierState, VerifyResult,
};
use crate::verify_input::{
    input_rejected, pre_verify, pre_verify_is, verify_result_view, SignatureDocumentParser,
};

verus! {

/// Whether `r` is the verifier state after a pre-verification `pre`, with
/// the provider stage for extracted metadata.
pub open spec fn provider_state_after_pre_verify<V: ProviderVerifier>(
    r: Result<StateView, InvocationError>,
    pre: PreVerifyView,
    ed25519_key: Option<(AlgorithmId, Seq<u8>)>,
    p256_key: Option<(AlgorithmId, Seq<u8>)>,
    options: VerifierOptions,
    ed25519_verifier: Option<V>,
    p256_verifier: Option<V>,
) -> bool {
    if options.algorithm_parameters@.len() > 0 {
        r == Err::<StateView, InvocationError>(InvocationError::InvalidAlgorithmParameters)
    } else {
        match pre.outcome {
            PreVerifyOutcome::Extracted => provider_verdict_from_pre_verify(
                r,
                pre,
                ed25519_key,
                p256_key,
                options,
                ed25519_verifier,
                p256_verifier,
            ),
            PreVerifyOutcome::Unsigned => r == Ok::<StateView, InvocationError>(StateView::Unsigned),
            _ => r == Ok::<StateView, InvocationError>(StateView::MalformedAttemptedSigned),
        }
    }
}

/// Whether `r` is what verifying `input` in `form` with provider-bound keys
/// yields: invalid parameters first, then the stage that follows
/// pre-verification (which never admits an unsigned artifact).
pub open spec fn provider_input_verdict_is<P: SignatureDocumentParser, V: ProviderVerifier>(
    r: Result<StateView, InvocationError>,
    input: Seq<u8>,
    form: ArtifactForm,
    ed25519_key: Option<(AlgorithmId, Seq<u8>)>,
    p256_key: Option<(AlgorithmId, Seq<u8>)>,
    options: VerifierOptions,
    parser: &P,
    ed25519_verifier: Option<V>,
    p256_verifier: Option<V>,
) -> bool {
    if options.algorithm_parameters@.len() > 0 {
        r == Err::<StateView, InvocationError>(InvocationError::InvalidAlgorithmParameters)
    } else {
        exists|v: PreVerifyView|
            #[trigger] pre_verify_is(v, input, form, false, parser) && provider_state_after_pre_verify(
                r,
                v,
                ed25519_key,
                p256_key,
                options,
                ed25519_verifier,
                p256_verifier,
            )
    }
}

fn verify_input_with_bound_keys<V: ProviderVerifier, P: SignatureDocumentParser>(
    input_bytes: &[u8],
    form: ArtifactForm,
    ed25519: Option<&ProviderVerifyingKey<V>>,
    p256: Option<&ProviderVerifyingKey<V>>,
    options: VerifierOptions,
    include_parser_observations: bool,
    parser: &P,
) -> (r: Result<VerifyResult, InvocationError>)
    ensures
        provider_input_verdict_is(
            verify_result_view(r),
            input_bytes@,
            form,
            bound_key_view(ed25519),
            bound_key_view(p256),
            options,
            parser,
            bound_verifier(ed25519),
            bound_verifier(p256),
        ),
        r matches Ok(v) ==> (!include_parser_observations ==> v.parser_observations@.len() == 0),
{
    if options.algorithm_parameters.len() > 0 {
        return Err(InvocationError::InvalidAlgorithmParameters);
    }
    let pre = pre_verify(input_bytes, form, false, include_parser_observations, parser);
    let ghost v = pre_verify_view(pre);
    let state = match pre.outcome {
        PreVerifyOutcome::Extracted => match verify_pre_verified_with_bound_keys(
            &pre,
            ed25519,
            p256,
            &options,
        ) {
            Ok(s) => s,
            Err(e) => {
                assert(provider_state_after_pre_verify(
                    Err(e),
                    v,
                    bound_key_view(ed25519),
                    bound_key_view(p256),
                    options,
                    bound_verifier(ed25519),
                    bound_verifier(p256),
                ));
                return Err(e);
            },
        },
        PreVerifyOutcome::Unsigned => VerifierState::Unsigned,
        _ => VerifierState::MalformedAttemptedSigned,
    };
    let parser_observations = if include_parser_observations {
        pre.parser_observations.clone()
    } else {
        Vec::new()
    };
    let r = Ok(VerifyResult { state, parser_observations });
    assert(pre_verify_is(v, input_bytes@, form, false, parser) && provider_state_after_pre_verify(
        verify_result_view(r),
        v,
        bound_key_view(ed25519),
        bound_key_view(p256),
        options,
        bound_verifier(ed25519),
        bound_verifier(p256),
    ));
    r
}

/// Verify an artifact in `form` with qualified provider keys, with the
/// parser observations when asked.
pub fn verify_with_provider_and_metadata<V: ProviderVerifier, P: SignatureDocumentParser>(
    input_bytes: &[u8],
    form: ArtifactForm,
    keys: &ProviderPublicKeys<'_, V>,
    options: VerifierOptions,
    include_parser_observations: bool,
    parser: &P,
) -> (r: Result<VerifyResult, InvocationError>)
    ensures
        provider_input_verdict_is(
            verify_result_view(r),
            input_bytes@,
            form,
            bound_key_view(keys.ed25519),
            bound_key_view(keys.p256),
            options,
            parser,
            bound_verifier(keys.ed25519),
            bound_verifier(keys.p256),
        ),
        r matches Ok(v) ==> (!include_parser_observations ==> v.parser_observations@.len() == 0),
{
    verify_input_with_bound_keys(
        input_bytes,
        form,
        keys.ed25519,
        keys.p256,
        options,
        include_parser_observations,
        parser,
    )
}

/// Verify an artifact in `form` with qualified provider keys.
pub fn verify_with_provider<V: ProviderVerifier, P: SignatureDocumentParser>(
    input_bytes: &[u8],
    form: ArtifactForm,
    keys: &ProviderPublicKeys<'_, V>,
    options: VerifierOptions,
    parser: &P,
) -> (r: Result<VerifierState, InvocationError>)
    ensures
        provider_input_verdict_is(
            result_view(r),
            input_bytes@,
            form,
            bound_key_view(keys.ed25519),
            bound_key_view(keys.p256),
            options,
            parser,
            bound_verifier(keys.ed25519),
            bound_verifier(keys.p256),
        ),
{
    match verify_with_provider_and_metadata(input_bytes, form, keys, options, false, parser) {
        Ok(v) => Ok(v.state),
        Err(e) => Err(e),
    }
}

/// [`verify_with_provider`] after complete-input resource admission.
pub fn verify_with_provider_and_resource_limits<V: ProviderVerifier, P: SignatureDocumentParser>(
    input_bytes: &[u8],
    form: ArtifactForm,
    keys: &ProviderPublicKeys<'_, V>,
    options: VerifierOptions,
    limits: &ArtifactResourceLimits,
    parser: &P,
) -> (r: Result<Result<VerifierState, InvocationError>, ArtifactResourceError>)
    ensures
        exceeds(limits@, input_bytes@.len() as int) ==> input_rejected(r, input_bytes@, form, limits@),
        !exceeds(limits@, input_bytes@.len() as int) ==> (r matches Ok(v) && provider_input_verdict_is(
            result_view(v),
            input_bytes@,
            form,
            bound_key_view(keys.ed25519),
            bound_key_view(keys.p256),
            options,
            parser,
            bound_verifier(keys.ed25519),
            bound_verifier(keys.p256),
        )),
{
    match limits.check_input_size(crate::verify_input::resource_form(form), input_bytes) {
        Err(e) => Err(e),
        Ok(_) => Ok(verify_with_provider(input_bytes, form, keys, options, parser)),
    }
}

/// [`verify_with_provider_and_metadata`] after complete-input resource
/// admission.
pub fn verify_with_provider_and_metadata_and_resource_limits<
    V: ProviderVerifier,
    P: SignatureDocumentParser,
>(
    input_bytes: &[u8],
    form: ArtifactForm,
    keys: &ProviderPublicKeys<'_, V>,
    options: VerifierOptions,
    include_parser_observations: bool,
    limits: &ArtifactResourceLimits,
    parser: &P,
) -> (r: Result<Result<VerifyResult, InvocationError>, ArtifactResourceError>)
    ensures
        exceeds(limits@, input_bytes@.len() as int) ==> input_rejected(r, input_bytes@, form, limits@),
        !exceeds(limits@, input_bytes@.len() as int) ==> (r matches Ok(v) && provider_input_verdict_is(
            verify_result_view(v),
            input_bytes@,
            form,
            bound_key_view(keys.ed25519),
            bound_key_view(keys.p256),
            options,
            parser,
            bound_verifier(keys.ed25519),
            bound_verifier(keys.p256),
        )),
{
    match limits.check_input_size(crate::verify_input::resource_form(form), input_bytes) {
        Err(e) => Err(e),
        Ok(_) => Ok(
            verify_with_provider_and_metadata(
                input_bytes,
                form,
                keys,
                options,
                include_parser_observations,
                parser,
            ),
        ),
    }
}

/// Verify an artifact in `form` through explicitly unqualified provider
/// keys, with the parser observations when asked.
pub fn verify_with_unqualified_provider_and_metadata<V: ProviderVerifier, P: SignatureDocumentParser>(
    input_bytes: &[u8],
    form: ArtifactForm,
    keys: &UnqualifiedProviderPublicKeys<'_, V>,
    options: VerifierOptions,
    include_parser_observations: bool,
    parser: &P,
) -> (r: Result<VerifyResult, InvocationError>)
    ensures
        provider_input_verdict_is(
            verify_result_view(r),
            input_bytes@,
            form,
            unqualified_key_view(keys.ed25519),
            unqualified_key_view(keys.p256),
            options,
            parser,
            unqualified_verifier(keys.ed25519),
            unqualified_verifier(keys.p256),
        ),
        r matches Ok(v) ==> (!include_parser_observations ==> v.parser_observations@.len() == 0),
{
    verify_input_with_bound_keys(
        input_bytes,
        form,
        inner_key(keys.ed25519),
        inner_key(keys.p256),
        options,
        include_parser_observations,
        parser,
    )
}

/// Verify an artifact in `form` through explicitly unqualified provider
/// keys.
pub fn verify_with_unqualified_provider<V: ProviderVerifier, P: SignatureDocumentParser>(
    input_bytes: &[u8],
    form: ArtifactForm,
    keys: &UnqualifiedProviderPublicKeys<'_, V>,
    options: VerifierOptions,
    parser: &P,
) -> (r: Result<VerifierState, InvocationError>)
    ensures
        provider_input_verdict_is(
            result_view(r),
            input_bytes@,
            form,
            unqualified_key_view(keys.ed25519),
            unqualified_key_view(keys.p256),
            options,
            parser,
            unqualified_verifier(keys.ed25519),
            unqualified_verifier(keys.p256),
        ),
{
    match verify_with_unqualified_provider_and_metadata(input_bytes, form, keys, options, false, parser) {
        Ok(v) => Ok(v.state),
        Err(e) => Err(e),
    }
}

/// [`verify_with_unqualified_provider`] after complete-input resource
/// admission.
pub fn verify_with_unqualified_provider_and_resource_limits<
    V: ProviderVerifier,
    P: SignatureDocumentParser,
>(
    input_bytes: &[u8],
    form: ArtifactForm,
    keys: &UnqualifiedProviderPublicKeys<'_, V>,
    options: VerifierOptions,
    limits: &ArtifactResourceLimits,
    parser: &P,
) -> (r: Result<Result<VerifierState, InvocationError>, ArtifactResourceError>)
    ensures
        exceeds(limits@, input_bytes@.len() as int) ==> input_rejected(r, input_bytes@, form, limits@),
        !exceeds(limits@, input_bytes@.len() as int) ==> (r matches Ok(v) && provider_input_verdict_is(
            result_view(v),
            input_bytes@,
            form,
            unqualified_key_view(keys.ed25519),
            unqualified_key_view(keys.p256),
            options,
            parser,
            unqualified_verifier(keys.ed25519),
            unqualified_verifier(keys.p256),
        )),
{
    match limits.check_input_size(crate::verify_input::resource_form(form), input_bytes) {
        Err(e) => Err(e),
        Ok(_) => Ok(verify_with_unqualified_provider(input_bytes, form, keys, options, parser)),
    }
}

/// [`verify_with_unqualified_provider_and_metadata`] after complete-input
/// resource admission.
pub fn verify_with_unqualified_provider_and_metadata_and_resource_limits<
    V: ProviderVerifier,
    P: SignatureDocumentParser,
>(
    input_bytes: &[u8],
    form: ArtifactForm,
    keys: &UnqualifiedProviderPublicKeys<'_, V>,
    options: VerifierOptions,
    include_parser_observations: bool,
    limits: &ArtifactResourceLimits,
    parser: &P,
) -> (r: Result<Result<VerifyResult, InvocationError>, ArtifactResourceError>)
    ensures
        exceeds(limits@, input_bytes@.len() as int) ==> input_rejected(r, input_bytes@, form, limits@),
        !exceeds(limits@, input_bytes@.len() as int) ==> (r matches Ok(v) && provider_input_verdict_is(
            verify_result_view(v),
            input_bytes@,
            form,
            unqualified_key_view(keys.ed25519),
            unqualified_key_view(keys.p256),
            options,
            parser,
            unqualified_verifier(keys.ed25519),
            unqualified_verifier(keys.p256),
        )),
{
    match limits.check_input_size(crate::verify_input::resource_form(form), input_bytes) {
        Err(e) => Err(e),
        Ok(_) => Ok(
            verify_with_unqualified_provider_and_metadata(
                input_bytes,
                form,
                keys,
                options,
                include_parser_observations,
                parser,
            ),
        ),
    }
}

} // verus!
