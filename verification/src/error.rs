//! Errors surfaced by the core artifact and signature-document functions.

use vstd::prelude::*;

verus! {

/// Core error categories; the text payloads are diagnostics only.
#[derive(Debug, Clone, PartialEq, Eq)]
pub enum CoreError {
    InvalidUtf8,
    ProtobufDecode(String),
    SignatureYaml(String),
    InvalidBase64,
    SchemaMismatch,
    EmptySignature,
}

/// The display text of a core error.
pub open spec fn core_error_message(e: CoreError) -> Seq<char> {
    match e {
        CoreError::InvalidUtf8 => "invalid UTF-8 in artifact"@,
        CoreError::ProtobufDecode(s) => "protobuf decode error: "@ + s@,
        CoreError::SignatureYaml(s) => "YAML signature document parse error: "@ + s@,
        CoreError::InvalidBase64 => "invalid base64 in signature field"@,
        CoreError::SchemaMismatch => "signature document schema mismatch"@,
        CoreError::EmptySignature => "empty decoded signature octets"@,
    }
}

/// The abstract content of a core error.
pub enum CoreFault {
    InvalidUtf8,
    ProtobufDecode(Seq<char>),
    SignatureYaml(Seq<char>),
    InvalidBase64,
    SchemaMismatch,
    EmptySignature,
}

pub open spec fn core_fault(e: CoreError) -> CoreFault {
    match e {
        CoreError::InvalidUtf8 => CoreFault::InvalidUtf8,
        CoreError::ProtobufDecode(s) => CoreFault::ProtobufDecode(s@),
        CoreError::SignatureYaml(s) => CoreFault::SignatureYaml(s@),
        CoreError::InvalidBase64 => CoreFault::InvalidBase64,
        CoreError::SchemaMismatch => CoreFault::SchemaMismatch,
        CoreError::EmptySignature => CoreFault::EmptySignature,
    }
}

impl CoreError {
    /// Human-readable description of the error.
    pub fn message(&self) -> (r: String)
        ensures
            r@ == core_error_message(*self),
    {
        match self {
            CoreError::InvalidUtf8 => String::from_str("invalid UTF-8 in artifact"),
            CoreError::ProtobufDecode(s) => {
                let mut out = String::from_str("protobuf decode error: ");
                out.append(s.as_str());
                out
            },
            CoreError::SignatureYaml(s) => {
                let mut out = String::from_str("YAML signature document parse error: ");
                out.append(s.as_str());
                out
            },
            CoreError::InvalidBase64 => String::from_str("invalid base64 in signature field"),
            CoreError::SchemaMismatch => String::from_str("signature document schema mismatch"),
            CoreError::EmptySignature => String::from_str("empty decoded signature octets"),
        }
    }
}

} // verus!
