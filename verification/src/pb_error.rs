//! Redacted protobuf decode and encode errors, and the protobuf message-size
//! ceiling.

use vstd::prelude::*;

verus! {

/// The protobuf message-size ceiling: 2 GiB minus one byte.
pub const MAX_MESSAGE_BYTES: u64 = 0x7FFF_FFFF;

/// Stable categories for protobuf decoding failures.
#[derive(Debug, Clone, Copy, PartialEq, Eq, Structural)]
pub enum DecodeErrorKind {
    /// The input ended before the current value was complete.
    UnexpectedEnd,
    /// A varint exceeded the protobuf encoding width.
    InvalidVarint,
    /// A tag contained field number zero or an unrepresentable field number.
    InvalidFieldNumber,
    /// A tag used a wire type that protobuf does not define.
    InvalidWireType,
    /// A known field used a wire type other than its schema-defined type.
    UnexpectedWireType,
    /// A protobuf `string` field was not valid UTF-8.
    InvalidUtf8,
    /// The input exceeded the protobuf message-size ceiling.
    MessageTooLarge,
    /// The input exceeded the decoder's nesting safeguard.
    RecursionLimitExceeded,
    /// The input exceeded the decoder's unknown-field safeguard.
    UnknownFieldLimitExceeded,
    /// The input exceeded the decoder's element-memory safeguard.
    ElementMemoryLimitExceeded,
    /// A protobuf group was incomplete or had a mismatched terminator.
    InvalidGroup,
    /// A decoder failure did not match another stable category.
    Other,
}

pub open spec fn decode_kind_description(k: DecodeErrorKind) -> Seq<char> {
    match k {
        DecodeErrorKind::UnexpectedEnd => "unexpected end of input"@,
        DecodeErrorKind::InvalidVarint => "invalid varint"@,
        DecodeErrorKind::InvalidFieldNumber => "invalid field number"@,
        DecodeErrorKind::InvalidWireType => "invalid wire type"@,
        DecodeErrorKind::UnexpectedWireType => "unexpected wire type for field"@,
        DecodeErrorKind::InvalidUtf8 => "invalid UTF-8 string field"@,
        DecodeErrorKind::MessageTooLarge => "message exceeds the protobuf size ceiling"@,
        DecodeErrorKind::RecursionLimitExceeded => "decoder recursion safeguard exceeded"@,
        DecodeErrorKind::UnknownFieldLimitExceeded => "decoder unknown-field safeguard exceeded"@,
        DecodeErrorKind::ElementMemoryLimitExceeded =>
            "decoder element-memory safeguard exceeded"@,
        DecodeErrorKind::InvalidGroup => "invalid protobuf group"@,
        DecodeErrorKind::Other => "other protobuf decode failure"@,
    }
}

impl DecodeErrorKind {
    /// Human-readable description of the category.
    pub fn description(self) -> (r: &'static str)
        ensures
            r@ == decode_kind_description(self),
    {
        match self {
            DecodeErrorKind::UnexpectedEnd => "unexpected end of input",
            DecodeErrorKind::InvalidVarint => "invalid varint",
            DecodeErrorKind::InvalidFieldNumber => "invalid field number",
            DecodeErrorKind::InvalidWireType => "invalid wire type",
            DecodeErrorKind::UnexpectedWireType => "unexpected wire type for field",
            DecodeErrorKind::InvalidUtf8 => "invalid UTF-8 string field",
            DecodeErrorKind::MessageTooLarge => "message exceeds the protobuf size ceiling",
            DecodeErrorKind::RecursionLimitExceeded => "decoder recursion safeguard exceeded",
            DecodeErrorKind::UnknownFieldLimitExceeded =>
                "decoder unknown-field safeguard exceeded",
            DecodeErrorKind::ElementMemoryLimitExceeded =>
                "decoder element-memory safeguard exceeded",
            DecodeErrorKind::InvalidGroup => "invalid protobuf group",
            DecodeErrorKind::Other => "other protobuf decode failure",
        }
    }
}

/// Opaque, redacted protobuf decoding error: it carries a category only.
#[derive(Debug, Clone, Copy, PartialEq, Eq, Structural)]
pub struct DecodeError {
    kind: DecodeErrorKind,
}

impl View for DecodeError {
    type V = DecodeErrorKind;

    closed spec fn view(&self) -> DecodeErrorKind {
        self.kind
    }
}

impl DecodeError {
    /// An error of the given category.
    pub fn new(kind: DecodeErrorKind) -> (r: Self)
        ensures
            r@ == kind,
    {
        DecodeError { kind }
    }

    /// Return the stable failure category.
    pub fn kind(&self) -> (r: DecodeErrorKind)
        ensures
            r == self@,
    {
        self.kind
    }

    /// Human-readable, content-free description of the failure.
    pub fn message(&self) -> (r: String)
        ensures
            r@ == "protobuf decode failed: "@ + decode_kind_description(self@),
    {
        let mut out = String::from_str("protobuf decode failed: ");
        out.append(self.kind.description());
        out
    }
}

/// Stable categories for protobuf encoding failures.
#[derive(Debug, Clone, Copy, PartialEq, Eq, Structural)]
pub enum EncodeErrorKind {
    /// The encoded message would exceed the protobuf size ceiling.
    MessageTooLarge,
    /// An encoder failure did not match another stable category.
    Other,
}

pub open spec fn encode_kind_description(k: EncodeErrorKind) -> Seq<char> {
    match k {
        EncodeErrorKind::MessageTooLarge => "message exceeds the protobuf size ceiling"@,
        EncodeErrorKind::Other => "other protobuf encode failure"@,
    }
}

impl EncodeErrorKind {
    /// Human-readable description of the category.
    pub fn description(self) -> (r: &'static str)
        ensures
            r@ == encode_kind_description(self),
    {
        match self {
            EncodeErrorKind::MessageTooLarge => "message exceeds the protobuf size ceiling",
            EncodeErrorKind::Other => "other protobuf encode failure",
        }
    }
}

/// Opaque, redacted protobuf encoding error: it carries a category only.
#[derive(Debug, Clone, Copy, PartialEq, Eq, Structural)]
pub struct EncodeError {
    kind: EncodeErrorKind,
}

impl View for EncodeError {
    type V = EncodeErrorKind;

    closed spec fn view(&self) -> EncodeErrorKind {
        self.kind
    }
}

impl EncodeError {
    /// The message would exceed the protobuf size ceiling.
    pub fn message_too_large() -> (r: Self)
        ensures
            r@ == EncodeErrorKind::MessageTooLarge,
    {
        EncodeError { kind: EncodeErrorKind::MessageTooLarge }
    }

    /// Return the stable failure category.
    pub fn kind(&self) -> (r: EncodeErrorKind)
        ensures
            r == self@,
    {
        self.kind
    }

    /// Human-readable, content-free description of the failure.
    pub fn message(&self) -> (r: String)
        ensures
            r@ == "protobuf encode failed: "@ + encode_kind_description(self@),
    {
        let mut out = String::from_str("protobuf encode failed: ");
        out.append(self.kind.description());
        out
    }
}

/// Check a complete encoded protobuf message size against the format
/// ceiling. Resource policy is not applied here.
pub fn check_encoded_message_size(encoded_size: usize) -> (r: Result<usize, EncodeError>)
    ensures
        encoded_size <= MAX_MESSAGE_BYTES ==> r == Ok::<usize, EncodeError>(encoded_size),
        encoded_size > MAX_MESSAGE_BYTES ==> (r matches Err(e) && e@
            == EncodeErrorKind::MessageTooLarge),
{
    if encoded_size as u64 > MAX_MESSAGE_BYTES {
        Err(EncodeError::message_too_large())
    } else {
        Ok(encoded_size)
    }
}

} // verus!
