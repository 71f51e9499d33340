//! Canonical algorithm identifiers and their YAML and protobuf spellings.

use vstd::prelude::*;
use crate::bytes::bytes_eq;
use vstd::utf8::encode_utf8;

verus! {

/// Algorithm identifiers shared by the protobuf and YAML forms.
#[derive(Debug, Clone, Copy, PartialEq, Eq, Structural)]
pub enum AlgorithmId {
    /// Ed25519 PureEdDSA, raw `R || S` 64 octets (protobuf slot 1).
    Ed25519,
    /// ECDSA over secp256r1 with SHA-256, raw `R || S` 64 octets (protobuf slot 2).
    EcdsaP256Sha256,
}

/// Schema identifier of a v1alpha1 YAML signature document.
pub const SCHEMA_V1ALPHA1: &'static str = "YamlSigilSignature.v1alpha1";

/// The canonical YAML `alg` spelling of the Ed25519 slot.
pub const ED25519_YAML_ALG: &'static str = "ED25519_PUREEDDSA_RAW_RS64_CANONICAL";

/// The canonical YAML `alg` spelling of the ECDSA P-256 SHA-256 slot.
pub const ECDSA_P256_SHA256_YAML_ALG: &'static str = "ECDSA_SECP256R1_SHA256_RAW_RS64";

/// The YAML `alg` spelling of an algorithm.
pub open spec fn yaml_alg_chars(a: AlgorithmId) -> Seq<char> {
    match a {
        AlgorithmId::Ed25519 => ED25519_YAML_ALG@,
        AlgorithmId::EcdsaP256Sha256 => ECDSA_P256_SHA256_YAML_ALG@,
    }
}

/// The algorithm whose YAML spelling is exactly `s`, if any.
pub open spec fn algorithm_of_yaml_chars(s: Seq<char>) -> Option<AlgorithmId> {
    if s == ED25519_YAML_ALG@ {
        Some(AlgorithmId::Ed25519)
    } else if s == ECDSA_P256_SHA256_YAML_ALG@ {
        Some(AlgorithmId::EcdsaP256Sha256)
    } else {
        None
    }
}

/// The protobuf enum number of an algorithm.
pub open spec fn wire_value(a: AlgorithmId) -> i32 {
    match a {
        AlgorithmId::Ed25519 => 1,
        AlgorithmId::EcdsaP256Sha256 => 2,
    }
}

/// The algorithm carried by a protobuf enum number, if recognized.
pub open spec fn algorithm_of_wire(v: i32) -> Option<AlgorithmId> {
    if v == 1 {
        Some(AlgorithmId::Ed25519)
    } else if v == 2 {
        Some(AlgorithmId::EcdsaP256Sha256)
    } else {
        None
    }
}

/// Two strings with equal UTF-8 encodings are equal.
pub proof fn lemma_str_bytes_injective(a: Seq<char>, b: Seq<char>)
    requires
        encode_utf8(a) == encode_utf8(b),
    ensures
        a == b,
{
    vstd::utf8::encode_utf8_decode_utf8(a);
    vstd::utf8::encode_utf8_decode_utf8(b);
}

/// Byte-exact comparison of two string slices.
pub fn str_eq(a: &str, b: &str) -> (r: bool)
    ensures
        r == (a@ == b@),
{
    let ab = a.as_bytes();
    let bb = b.as_bytes();
    let r = bytes_eq(ab, bb);
    proof {
        if r {
            lemma_str_bytes_injective(a@, b@);
        }
    }
    r
}

impl AlgorithmId {
    /// Return the canonical YAML `alg` spelling.
    pub fn as_yaml_str(self) -> (r: &'static str)
        ensures
            r@ == yaml_alg_chars(self),
    {
        match self {
            AlgorithmId::Ed25519 => ED25519_YAML_ALG,
            AlgorithmId::EcdsaP256Sha256 => ECDSA_P256_SHA256_YAML_ALG,
        }
    }

    /// Parse an exact canonical YAML `alg` value (no trimming or folding).
    pub fn from_yaml_str(s: &str) -> (r: Option<AlgorithmId>)
        ensures
            r == algorithm_of_yaml_chars(s@),
    {
        if str_eq(s, ED25519_YAML_ALG) {
            Some(AlgorithmId::Ed25519)
        } else if str_eq(s, ECDSA_P256_SHA256_YAML_ALG) {
            Some(AlgorithmId::EcdsaP256Sha256)
        } else {
            None
        }
    }

    /// Map a protobuf enum number to a recognized algorithm.
    pub fn from_i32(v: i32) -> (r: Option<AlgorithmId>)
        ensures
            r == algorithm_of_wire(v),
    {
        if v == 1 {
            Some(AlgorithmId::Ed25519)
        } else if v == 2 {
            Some(AlgorithmId::EcdsaP256Sha256)
        } else {
            None
        }
    }

    /// Return the protobuf enum number.
    pub fn wire_value(self) -> (r: i32)
        ensures
            r == wire_value(self),
            algorithm_of_wire(r) == Some(self),
    {
        match self {
            AlgorithmId::Ed25519 => 1,
            AlgorithmId::EcdsaP256Sha256 => 2,
        }
    }
}

} // verus!
