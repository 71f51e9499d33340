//! Protobuf wire decode and encode helpers over the stable message types.

use vstd::prelude::*;
use vstd::slice::slice_to_vec;
use crate::error::CoreError;
use crate::pb::{
    artifact_wire, decode_artifact_model, decode_signature_model, encoded_vec_is,
    resource_encoded_vec_is, SigModel, SignedYamlArtifact, YamlSigilSignature,
};
use crate::pb_error::{decode_kind_description, DecodeErrorKind, EncodeError};
use crate::resource::{
    error_facts, exceeds, ArtifactResourceError, ArtifactResourceErrorKind, ArtifactResourceForm,
    ArtifactResourceLimits,
};

verus! {

/// Payload, algorithm wire number, signature octets, and key identifier
/// extracted from protobuf.
#[derive(Debug, Clone, PartialEq, Eq)]
pub struct ProtoArtifactView {
    pub payload: Vec<u8>,
    pub alg_wire: i32,
    pub signature: Vec<u8>,
    /// Optional key identifier from `YamlSigilSignature.keyid`.
    pub keyid: Option<String>,
}

/// The diagnostic text of a protobuf decode failure.
pub open spec fn decode_failure_text(k: DecodeErrorKind) -> Seq<char> {
    "protobuf decode failed: "@ + decode_kind_description(k)
}

/// The diagnostic of an artifact without a signature message.
pub open spec fn missing_signature_text() -> Seq<char> {
    "missing signature submessage"@
}

pub open spec fn owned_keyid_view(k: Option<String>) -> Option<Seq<u8>> {
    match k {
        Some(s) => Some(vstd::utf8::encode_utf8(s@)),
        None => None,
    }
}

/// Whether `v` holds `payload` and the fields of signature message `s`.
pub open spec fn view_holds(v: ProtoArtifactView, payload: Seq<u8>, s: SigModel) -> bool {
    &&& v.payload@ == payload
    &&& v.alg_wire == s.alg
    &&& v.signature@ == s.signature
    &&& owned_keyid_view(v.keyid) == s.keyid
}

/// Decode protobuf `SignedYamlArtifact` wire bytes. No size limit is applied.
pub fn decode_signed_yaml_artifact(bytes: &[u8]) -> (r: Result<SignedYamlArtifact, CoreError>)
    ensures
        match decode_artifact_model(bytes@) {
            Ok(m) => r matches Ok(a) && a@ == m,
            Err(k) => r matches Err(CoreError::ProtobufDecode(t)) && t@ == decode_failure_text(k),
        },
{
    match SignedYamlArtifact::decode(bytes) {
        Ok(a) => Ok(a),
        Err(e) => Err(CoreError::ProtobufDecode(e.message())),
    }
}

/// Decode protobuf wire bytes after applying an explicit complete-input policy.
pub fn decode_signed_yaml_artifact_with_resource_limits(
    bytes: &[u8],
    limits: &ArtifactResourceLimits,
) -> (r: Result<Result<SignedYamlArtifact, CoreError>, ArtifactResourceError>)
    ensures
        exceeds(limits@, bytes@.len() as int) ==> (r matches Err(e) && e@ == error_facts(
            ArtifactResourceErrorKind::InputArtifactTooLarge,
            ArtifactResourceForm::Protobuf,
            limits@,
            Some(bytes@.len() as usize),
        )),
        !exceeds(limits@, bytes@.len() as int) ==> (r matches Ok(d) && match decode_artifact_model(
            bytes@,
        ) {
            Ok(m) => d matches Ok(a) && a@ == m,
            Err(k) => d matches Err(CoreError::ProtobufDecode(t)) && t@ == decode_failure_text(k),
        }),
{
    match SignedYamlArtifact::decode_with_resource_limits(bytes, limits) {
        Err(e) => Err(e),
        Ok(Ok(a)) => Ok(Ok(a)),
        Ok(Err(e)) => Ok(Err(CoreError::ProtobufDecode(e.message()))),
    }
}

/// Encode an owned protobuf artifact.
pub fn encode_signed_yaml_artifact(msg: &SignedYamlArtifact) -> (r: Result<Vec<u8>, EncodeError>)
    ensures
        encoded_vec_is(r, artifact_wire(msg@)),
{
    msg.encode_to_vec()
}

/// Encode an owned protobuf artifact after applying an explicit output policy.
pub fn encode_signed_yaml_artifact_with_resource_limits(
    msg: &SignedYamlArtifact,
    limits: &ArtifactResourceLimits,
) -> (r: Result<Result<Vec<u8>, EncodeError>, ArtifactResourceError>)
    ensures
        resource_encoded_vec_is(r, artifact_wire(msg@), limits@),
{
    msg.encode_to_vec_with_resource_limits(limits)
}

/// Copy the fields of a signature message into a view with `payload`.
fn view_of_signature(payload: Vec<u8>, sig: &YamlSigilSignature) -> (r: ProtoArtifactView)
    ensures
        view_holds(r, payload@, sig@),
{
    let keyid = match sig.keyid() {
        Some(k) => Some(String::from_str(k)),
        None => None,
    };
    ProtoArtifactView {
        payload,
        alg_wire: sig.algorithm_wire_value(),
        signature: slice_to_vec(sig.signature()),
        keyid,
    }
}

/// Copy the payload and signature fields of a decoded artifact into a view.
pub fn view_signed_yaml_artifact(artifact: &SignedYamlArtifact) -> (r: Result<
    ProtoArtifactView,
    CoreError,
>)
    ensures
        match artifact@.signature {
            Some(s) => r matches Ok(v) && view_holds(v, artifact@.payload, s),
            None => r matches Err(CoreError::ProtobufDecode(t)) && t@ == missing_signature_text(),
        },
{
    let sig = match artifact.signature() {
        Some(s) => s,
        None => {
            return Err(CoreError::ProtobufDecode(String::from_str("missing signature submessage")))
        },
    };
    Ok(view_of_signature(slice_to_vec(artifact.payload()), sig))
}

/// Extract the inner signature fields from opaque carrier bytes; the
/// payload of the view is empty.
pub fn view_signature_carrier(carrier: &[u8]) -> (r: Result<ProtoArtifactView, CoreError>)
    ensures
        match decode_signature_model(carrier@) {
            Ok(s) => r matches Ok(v) && view_holds(v, Seq::empty(), s),
            Err(k) => r matches Err(CoreError::ProtobufDecode(t)) && t@ == decode_failure_text(k),
        },
{
    let sig = match decode_signature_carrier(carrier) {
        Ok(s) => s,
        Err(e) => return Err(e),
    };
    let empty: Vec<u8> = Vec::new();
    assert(empty@ =~= Seq::<u8>::empty());
    Ok(view_of_signature(empty, &sig))
}

/// Decode the inner `YamlSigilSignature` from opaque carrier bytes.
pub fn decode_signature_carrier(carrier: &[u8]) -> (r: Result<YamlSigilSignature, CoreError>)
    ensures
        match decode_signature_model(carrier@) {
            Ok(m) => r matches Ok(s) && s@ == m,
            Err(k) => r matches Err(CoreError::ProtobufDecode(t)) && t@ == decode_failure_text(k),
        },
{
    match YamlSigilSignature::decode(carrier) {
        Ok(s) => Ok(s),
        Err(e) => Err(CoreError::ProtobufDecode(e.message())),
    }
}

} // verus!
