//! What signing promises to verification: an artifact that signing
//! produced verifies, under the public key of the signing key, as
//! `Verified` with the signed payload.

use vstd::prelude::*;
use vstd::utf8::{encode_utf8, encode_utf8_decode_utf8, encode_utf8_valid_utf8};
use crate::algorithm::{
    algorithm_of_wire, algorithm_of_yaml_chars, wire_value, yaml_alg_chars, AlgorithmId,
    SCHEMA_V1ALPHA1,
};
use crate::external::base64_url_nopad_encoding;
use crate::payload::valid_payload;

use crate::transcription::{
    compose_result, has_constrained_marker, lemma_yaml_compose_decompose_round_trip, yaml_envelope,
    TranscriptionForm,
};
use crate::conformance::OuterConformance;
use crate::pb::{decode_signature_model, lemma_signature_round_trip, sig_wire};
use crate::pb_error::DecodeErrorKind;
use crate::proto_outer::lemma_proto_outer_round_trip;
use crate::sign::{
    key_matches, keys_for, lemma_signature_message_len, proto_signed_artifact, signature_message,
    signature_text_round_trips, signature_verifies_under, yaml_signature_carrier, yaml_signed_artifact,
    SigningKey,
};
use crate::verify::{
    keyid_valid, proto_metadata, proto_pre_verify, state_after_pre_verify, yaml_metadata,
    yaml_structure_stage, ArtifactForm, MetadataView, PreVerifyOutcome, PreVerifyView, PublicKeys,
    StateView, VerifierOptions,
};

verus! {

/// Whether verification options admit both algorithms and carry no
/// algorithm parameters, as the default options do.
pub open spec fn admits_every_algorithm(options: VerifierOptions) -> bool {
    &&& options.verify_ed25519
    &&& options.verify_ecdsa_p256_sha256
    &&& options.algorithm_parameters@.len() == 0
}

/// Whether the protobuf artifact `wire` verifies as `Verified(payload, alg)`
/// under every key set that holds the public key of `key` and every option
/// set that admits every algorithm.
pub open spec fn proto_artifact_verifies(
    wire: Seq<u8>,
    payload: Seq<u8>,
    alg: AlgorithmId,
    key: SigningKey,
) -> bool {
    forall|keys: PublicKeys, options: VerifierOptions|
        keys_for(key, keys) && admits_every_algorithm(options) ==> #[trigger] state_after_pre_verify(
            proto_pre_verify(wire),
            ArtifactForm::Proto,
            keys,
            options,
        ) == Ok::<StateView, crate::verify::InvocationError>(StateView::Verified(payload, alg))
}

/// A protobuf artifact composed from a payload and a signature over it
/// that verifies under the public key of the signing key is verified, with
/// that payload and algorithm, under that public key.
pub proof fn lemma_signed_proto_verifies(
    payload: Seq<u8>,
    alg: AlgorithmId,
    key: SigningKey,
    keyid: Option<Seq<char>>,
    sig: Seq<u8>,
    keys: PublicKeys,
    options: VerifierOptions,
)
    requires
        payload.len() <= usize::MAX,
        key_matches(alg, key),
        keyid matches Some(k) ==> keyid_valid(k),
        signature_verifies_under(key, payload, sig),
        keys_for(key, keys),
        admits_every_algorithm(options),
    ensures
        state_after_pre_verify(
            proto_pre_verify(proto_signed_artifact(payload, alg, keyid, sig)),
            ArtifactForm::Proto,
            keys,
            options,
        ) == Ok::<StateView, crate::verify::InvocationError>(StateView::Verified(payload, alg)),
{
    let m = signature_message(alg, keyid, sig);
    let carrier = sig_wire(m);
    match keyid {
        Some(k) => {
            encode_utf8_valid_utf8(k);
            encode_utf8_decode_utf8(k);
        },
        None => {},
    }
    lemma_signature_message_len(alg, keyid, sig);
    lemma_proto_outer_round_trip(payload, carrier, OuterConformance::SignatureStrict);
    assert(m.unknown.len() == 0);
    lemma_signature_round_trip(m);
    assert(decode_signature_model(carrier) == Ok::<crate::pb::SigModel, DecodeErrorKind>(m));
    assert(algorithm_of_wire(wire_value(alg)) == Some(alg));
    assert(proto_metadata(m) == Ok::<MetadataView, crate::verify::PreVerifyOutcome>(
        MetadataView { algorithm: alg, keyid: m.keyid, signature: sig },
    ));
}


/// The metadata that reading back the fields of the signature document a
/// signer wrote gives.
pub open spec fn written_document_metadata(
    alg: AlgorithmId,
    keyid: Option<Seq<char>>,
    sig: Seq<u8>,
) -> Result<MetadataView, PreVerifyOutcome> {
    yaml_metadata(SCHEMA_V1ALPHA1@, yaml_alg_chars(alg), keyid, base64_url_nopad_encoding(sig))
}

/// The pre-verification view of a YAML artifact with payload `payload` whose
/// signature document read back as `meta`.
pub open spec fn yaml_read_back_view(payload: Seq<u8>, meta: MetadataView) -> PreVerifyView {
    PreVerifyView {
        outcome: PreVerifyOutcome::Extracted,
        form: ArtifactForm::Yaml,
        payload: Some(payload),
        metadata: Some(meta),
    }
}

/// Whether the YAML artifact `wire` that signs `payload` with `sig`
/// decomposes into that payload and the carrier written for `sig`, and
/// whether the fields of that carrier, read back, verify as
/// `Verified(payload, alg)` under every key set that holds the public key
/// of `key` and every option set that admits every algorithm.
pub open spec fn yaml_artifact_verifies(
    wire: Seq<u8>,
    payload: Seq<u8>,
    alg: AlgorithmId,
    keyid: Option<Seq<char>>,
    key: SigningKey,
    sig: Seq<u8>,
) -> bool {
    &&& forall|allow_unsigned: bool| #[trigger]
        yaml_structure_stage(wire, allow_unsigned) == Ok::<(Seq<u8>, Seq<u8>), PreVerifyOutcome>(
            (payload, encode_utf8(yaml_signature_carrier(alg, keyid, sig))),
        )
    &&& written_document_metadata(alg, keyid, sig) matches Ok(m) && forall|
        keys: PublicKeys,
        options: VerifierOptions,
    |
        keys_for(key, keys) && admits_every_algorithm(options) ==> #[trigger] state_after_pre_verify(
            yaml_read_back_view(payload, m),
            ArtifactForm::Yaml,
            keys,
            options,
        ) == Ok::<StateView, crate::verify::InvocationError>(StateView::Verified(payload, alg))
}

/// A YAML artifact composed from a payload and a signature over it that
/// verifies under the public key of the signing key decomposes into that
/// payload and the written carrier, and the carrier's fields, read back,
/// verify with that payload and algorithm under that public key.
pub proof fn lemma_signed_yaml_verifies(
    payload: Seq<u8>,
    alg: AlgorithmId,
    key: SigningKey,
    keyid: Option<Seq<char>>,
    sig: Seq<u8>,
)
    requires
        valid_payload(payload),
        key_matches(alg, key),
        keyid matches Some(k) ==> keyid_valid(k),
        signature_verifies_under(key, payload, sig),
        signature_text_round_trips(sig),
        yaml_signed_artifact(payload, alg, keyid, sig) matches Ok(w) && w.len() <= usize::MAX,
    ensures
        yaml_signed_artifact(payload, alg, keyid, sig) matches Ok(w) && yaml_artifact_verifies(
            w,
            payload,
            alg,
            keyid,
            key,
            sig,
        ),
{
    let text = yaml_signature_carrier(alg, keyid, sig);
    let carrier = encode_utf8(text);
    assert(compose_result(payload, carrier, TranscriptionForm::Yaml) is Ok);
    assert(!has_constrained_marker(carrier));
    let w = yaml_envelope(payload, carrier);
    reveal_strlit("schema: ");
    assert(text.len() > 0);
    encode_utf8_valid_utf8(text);
    encode_utf8_decode_utf8(text);
    if carrier.len() == 0 {
        assert(carrier =~= Seq::<u8>::empty());
        assert(vstd::utf8::decode_utf8(carrier) =~= Seq::<char>::empty());
    }
    lemma_yaml_compose_decompose_round_trip(payload, carrier);
    assert forall|allow_unsigned: bool| #[trigger]
        yaml_structure_stage(w, allow_unsigned) == Ok::<(Seq<u8>, Seq<u8>), PreVerifyOutcome>(
            (payload, carrier),
        ) by {}
    reveal_strlit("ED25519_PUREEDDSA_RAW_RS64_CANONICAL");
    reveal_strlit("ECDSA_SECP256R1_SHA256_RAW_RS64");
    assert(algorithm_of_yaml_chars(yaml_alg_chars(alg)) == Some(alg));
    let m = MetadataView {
        algorithm: alg,
        keyid: match keyid {
            Some(k) => Some(encode_utf8(k)),
            None => None,
        },
        signature: sig,
    };
    assert(written_document_metadata(alg, keyid, sig) == Ok::<MetadataView, PreVerifyOutcome>(m));
    assert(algorithm_of_wire(wire_value(alg)) == Some(alg));
    assert(sig.len() == 64);
}

} // verus!
