//! Payload stream invariants shared by protobuf verification and signing.

use vstd::prelude::*;
use vstd::utf8::valid_utf8;
use crate::bytes::is_valid_utf8;

verus! {

/// Why a payload stream violates the YAML-envelope payload rules.
#[derive(Debug, Clone, Copy, PartialEq, Eq, Structural)]
pub enum PayloadInvariantError {
    /// The payload is not valid UTF-8.
    InvalidUtf8,
    /// The payload starts with a UTF-8 byte-order mark.
    BomAtOffset0,
    /// A non-empty payload does not end with a line terminator.
    MissingTrailingLineTerminator,
}

/// Whether the first three bytes are the UTF-8 byte-order mark.
pub open spec fn bom_at_zero(s: Seq<u8>) -> bool {
    s.len() >= 3 && s[0] == 0xEF && s[1] == 0xBB && s[2] == 0xBF
}

/// The verdict of the payload rules on `s`.
pub open spec fn payload_verdict(s: Seq<u8>) -> Result<(), PayloadInvariantError> {
    if !valid_utf8(s) {
        Err(PayloadInvariantError::InvalidUtf8)
    } else if bom_at_zero(s) {
        Err(PayloadInvariantError::BomAtOffset0)
    } else if s.len() == 0 {
        Ok(())
    } else if s.last() != 0x0A {
        Err(PayloadInvariantError::MissingTrailingLineTerminator)
    } else {
        Ok(())
    }
}

/// Whether `s` satisfies the payload rules: UTF-8, no BOM, and a final LF
/// unless empty.
pub open spec fn valid_payload(s: Seq<u8>) -> bool {
    payload_verdict(s) is Ok
}

/// Whether a byte slice starts with the UTF-8 byte-order mark.
pub fn starts_with_bom(bytes: &[u8]) -> (r: bool)
    ensures
        r == bom_at_zero(bytes@),
{
    bytes.len() >= 3 && bytes[0] == 0xEF && bytes[1] == 0xBB && bytes[2] == 0xBF
}

/// The description of a payload-rule violation.
pub open spec fn payload_error_text(e: PayloadInvariantError) -> Seq<char> {
    match e {
        PayloadInvariantError::InvalidUtf8 => "payload is not valid UTF-8"@,
        PayloadInvariantError::BomAtOffset0 => "payload must not start with a UTF-8 BOM"@,
        PayloadInvariantError::MissingTrailingLineTerminator =>
            "non-empty payload must end with a line terminator (LF, optional CR before LF)"@,
    }
}

impl PayloadInvariantError {
    /// Human-readable description of the violation.
    pub fn message(self) -> (r: &'static str)
        ensures
            r@ == payload_error_text(self),
    {
        match self {
            PayloadInvariantError::InvalidUtf8 => "payload is not valid UTF-8",
            PayloadInvariantError::BomAtOffset0 => "payload must not start with a UTF-8 BOM",
            PayloadInvariantError::MissingTrailingLineTerminator =>
                "non-empty payload must end with a line terminator (LF, optional CR before LF)",
        }
    }
}

/// Validate UTF-8, no BOM, and trailing line terminator for non-empty payloads.
pub fn validate_payload_stream(payload: &[u8]) -> (r: Result<(), PayloadInvariantError>)
    ensures
        r == payload_verdict(payload@),
{
    if !is_valid_utf8(payload) {
        return Err(PayloadInvariantError::InvalidUtf8);
    }
    if starts_with_bom(payload) {
        return Err(PayloadInvariantError::BomAtOffset0);
    }
    if payload.len() == 0 {
        return Ok(());
    }
    let last = payload[payload.len() - 1];
    if last != 0x0A {
        return Err(PayloadInvariantError::MissingTrailingLineTerminator);
    }
    Ok(())
}

} // verus!
