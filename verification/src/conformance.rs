//! What this library advertises about YAML signature-document and protobuf
//! wire behavior, and the outer-envelope conformance modes.

use vstd::prelude::*;

verus! {

/// Duplicate keys in the signature-document mapping.
#[derive(Debug, Clone, Copy, PartialEq, Eq, Hash, Structural)]
pub enum YamlSignatureDocumentDuplicateKeyPolicy {
    /// The parser rejects duplicate signature-document keys.
    RejectedAtParse,
}

/// Unknown top-level keys in the signature-document mapping.
#[derive(Debug, Clone, Copy, PartialEq, Eq, Hash, Structural)]
pub enum YamlSignatureDocumentUnknownFieldPolicy {
    /// The parser drops unknown keys.
    IgnoredAtParse,
    /// The parser rejects unknown keys.
    RejectedAtParse,
    /// The verifier rejects unknown keys after enumerating the document.
    RejectedAtVerify,
}

/// Advertised decoding behavior for protobuf `SignedYamlArtifact` wire bytes.
#[derive(Debug, Clone, Copy, PartialEq, Eq, Hash, Structural)]
pub enum ProtobufWireDecodeAdvertisement {
    /// A stock protobuf decoder without a conformance profile flag.
    UnprofiledStockDecoder,
}

/// Outer-envelope conformance for protobuf-form decomposition.
#[derive(Debug, Clone, Copy, PartialEq, Eq, Hash, Structural)]
pub enum OuterConformance {
    /// Reject unknown outer fields and duplicate outer `payload` / `signature`.
    Strict,
    /// Reject duplicate outer `signature` fields, accept unknown outer fields,
    /// and use the last outer `payload` value.
    SignatureStrict,
}

/// Default unknown-field policy for this build.
pub const DEFAULT_YAML_UNKNOWN_FIELD_POLICY: YamlSignatureDocumentUnknownFieldPolicy =
    YamlSignatureDocumentUnknownFieldPolicy::RejectedAtParse;

/// Policies available for YAML signature-document unknown fields in this build.
pub fn yaml_unknown_field_policies() -> (r: Vec<YamlSignatureDocumentUnknownFieldPolicy>)
    ensures
        r@ == seq![DEFAULT_YAML_UNKNOWN_FIELD_POLICY],
{
    let mut v = Vec::new();
    v.push(DEFAULT_YAML_UNKNOWN_FIELD_POLICY);
    v
}

} // verus!
