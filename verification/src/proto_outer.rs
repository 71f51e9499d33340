//! Bytes-only outer `SignedYamlArtifact` compose and decompose.
//!
//! The `YamlSigilSignature` interior is not parsed: the length-delimited
//! body of field 2 is returned as opaque signature-carrier bytes.

use vstd::prelude::*;
use vstd::slice::slice_to_vec;
use crate::bytes::append_bytes;
use crate::conformance::OuterConformance;
use crate::pb_error::{check_encoded_message_size, EncodeError, EncodeErrorKind, MAX_MESSAGE_BYTES};
use crate::resource::{
    error_facts, exceeds, ArtifactResourceError, ArtifactResourceErrorKind, ArtifactResourceForm,
    ArtifactResourceLimits,
};
use crate::varint::{
    lemma_read_varint_bytes, lemma_pow128_facts, lemma_read_varint_progress, lemma_varint_bytes_len,
    push_varint, read_length, read_length_at, read_tag, read_tag_at, read_varint_from, skip_field,
    skip_field_at, varint_bytes, varint_len, MAX_PROTOBUF_FIELD_NUMBER,
};

verus! {

/// Outcome of outer protobuf envelope decomposition.
#[derive(Debug, Clone, PartialEq, Eq)]
pub enum ProtoOuterDecomposeOutcome {
    /// Wire shape or outer-conformance violation.
    Malformed,
    /// Recovered payload and opaque signature-carrier bytes.
    Decomposed { payload: Vec<u8>, signature_carrier: Vec<u8> },
}

/// A length-delimited field: one tag byte, the varint length, the value.
pub open spec fn len_field_bytes(tag: u8, value: Seq<u8>) -> Seq<u8> {
    seq![tag] + varint_bytes(value.len()) + value
}

/// The raw outer wire: `payload` as field 1 and the carrier as field 2,
/// both always present, in that order.
pub open spec fn outer_wire(payload: Seq<u8>, carrier: Seq<u8>) -> Seq<u8> {
    len_field_bytes(0x0a, payload) + len_field_bytes(0x12, carrier)
}

/// Length of [`outer_wire`] from the two value lengths.
pub open spec fn outer_wire_len(payload_len: nat, carrier_len: nat) -> nat {
    2 + varint_bytes(payload_len).len() + payload_len + varint_bytes(carrier_len).len()
        + carrier_len
}

/// The outer scan from index `i`, having seen `payload` and `sig` so far.
///
/// Every field is read as a tag; non-length-delimited fields are rejected
/// in strict mode and skipped otherwise. Field 1 sets the payload (a second
/// one is rejected in strict mode), field 2 sets the carrier (a second one
/// is always rejected), other fields are rejected in strict mode. At the
/// end a carrier is required; a missing payload is empty.
pub open spec fn outer_scan(
    w: Seq<u8>,
    strict: bool,
    i: int,
    payload: Option<Seq<u8>>,
    sig: Option<Seq<u8>>,
) -> Option<(Seq<u8>, Seq<u8>)>
    decreases w.len() - i,
{
    if i < 0 || i >= w.len() {
        match sig {
            Some(s) => Some(
                (
                    match payload {
                        Some(p) => p,
                        None => Seq::<u8>::empty(),
                    },
                    s,
                ),
            ),
            None => None,
        }
    } else {
        match read_tag_at(w, i) {
            None => None,
            Some((field, wt, n)) => if !(i < n && n <= w.len()) {
                None
            } else if wt != 2 {
                if strict {
                    None
                } else {
                    match skip_field_at(w, wt, n) {
                        None => None,
                        Some(m) => if !(n <= m && m <= w.len()) {
                            None
                        } else {
                            outer_scan(w, strict, m, payload, sig)
                        },
                    }
                }
            } else {
                match read_length_at(w, n) {
                    None => None,
                    Some((l, m)) => if !(n < m && m + l <= w.len()) {
                        None
                    } else {
                        let value = w.subrange(m, m + l);
                        if field == 1 {
                            if strict && payload is Some {
                                None
                            } else {
                                outer_scan(w, strict, m + l, Some(value), sig)
                            }
                        } else if field == 2 {
                            if sig is Some {
                                None
                            } else {
                                outer_scan(w, strict, m + l, payload, Some(value))
                            }
                        } else if strict {
                            None
                        } else {
                            outer_scan(w, strict, m + l, payload, sig)
                        }
                    },
                }
            },
        }
    }
}

/// Payload and carrier recovered from `wire` under `mode`, or `None` when
/// the wire is malformed for that mode.
pub open spec fn proto_outer_decomposition(wire: Seq<u8>, mode: OuterConformance) -> Option<
    (Seq<u8>, Seq<u8>),
> {
    outer_scan(wire, mode == OuterConformance::Strict, 0, None, None)
}

/// Whether the outcome `r` reports `expected`.
pub open spec fn outer_outcome_is(
    r: ProtoOuterDecomposeOutcome,
    expected: Option<(Seq<u8>, Seq<u8>)>,
) -> bool {
    match r {
        ProtoOuterDecomposeOutcome::Malformed => expected is None,
        ProtoOuterDecomposeOutcome::Decomposed { payload, signature_carrier } => expected == Some(
            (payload@, signature_carrier@),
        ),
    }
}

pub open spec fn opt_bytes(o: Option<Vec<u8>>) -> Option<Seq<u8>> {
    match o {
        Some(v) => Some(v@),
        None => None,
    }
}

/// A successful skip stays between its start and the end of the input.
pub proof fn lemma_skip_field_progress(b: Seq<u8>, wt: nat, i: int)
    requires
        0 <= i <= b.len(),
    ensures
        skip_field_at(b, wt, i) matches Some(m) ==> i <= m <= b.len(),
{
    lemma_read_varint_progress(b, i, 0);
}

/// Append one length-delimited field.
pub(crate) fn push_len_field(destination: &mut Vec<u8>, tag: u8, value: &[u8])
    ensures
        final(destination)@ == old(destination)@ + len_field_bytes(tag, value@),
{
    destination.push(tag);
    push_varint(destination, value.len() as u64);
    append_bytes(destination, value);
    assert(final(destination)@ =~= old(destination)@ + len_field_bytes(tag, value@));
}

/// Serialize the outer `SignedYamlArtifact` with `signature_carrier` as the
/// body of field 2. Both fields are always emitted, empty ones included.
pub fn compose_proto_outer(payload: &[u8], signature_carrier: &[u8]) -> (r: Vec<u8>)
    requires
        outer_wire(payload@, signature_carrier@).len() <= usize::MAX,
    ensures
        r@ == outer_wire(payload@, signature_carrier@),
{
    let mut output: Vec<u8> = Vec::new();
    push_len_field(&mut output, 0x0a, payload);
    push_len_field(&mut output, 0x12, signature_carrier);
    assert(output@ =~= outer_wire(payload@, signature_carrier@));
    output
}

/// Exact size of the raw outer wire, or `None` when it does not fit in `u64`.
fn raw_outer_size(payload_len: usize, carrier_len: usize) -> (r: Option<u64>)
    ensures
        r matches Some(n) ==> n == outer_wire_len(payload_len as nat, carrier_len as nat),
        r is None ==> outer_wire_len(payload_len as nat, carrier_len as nat) > u64::MAX,
{
    let a = varint_len(payload_len as u64);
    let b = varint_len(carrier_len as u64);
    let fixed: u64 = 2 + a + b;
    match fixed.checked_add(payload_len as u64) {
        None => None,
        Some(s) => s.checked_add(carrier_len as u64),
    }
}

/// Whether the raw outer wire for values of these lengths fits in `usize`.
pub fn outer_wire_fits(payload_len: usize, carrier_len: usize) -> (r: bool)
    ensures
        r == (outer_wire_len(payload_len as nat, carrier_len as nat) <= usize::MAX),
{
    match raw_outer_size(payload_len, carrier_len) {
        None => false,
        Some(t) => t <= usize::MAX as u64,
    }
}

/// Serialize the outer artifact after applying an explicit output policy.
///
/// The exact wire size is computed before any allocation. The outer result
/// reports a resource rejection; after admission, the inner result reports
/// the protobuf size ceiling.
pub fn compose_proto_outer_with_resource_limits(
    payload: &[u8],
    signature_carrier: &[u8],
    limits: &ArtifactResourceLimits,
) -> (r: Result<Result<Vec<u8>, EncodeError>, ArtifactResourceError>)
    ensures
        ({
            let n = outer_wire(payload@, signature_carrier@).len();
            &&& n > usize::MAX ==> (r matches Err(e) && e@ == error_facts(
                ArtifactResourceErrorKind::SizeComputationOverflow,
                ArtifactResourceForm::Protobuf,
                limits@,
                None,
            ))
            &&& n <= usize::MAX && exceeds(limits@, n as int) ==> (r matches Err(e) && e@
                == error_facts(
                ArtifactResourceErrorKind::OutputArtifactTooLarge,
                ArtifactResourceForm::Protobuf,
                limits@,
                Some(n as usize),
            ))
            &&& n <= usize::MAX && !exceeds(limits@, n as int) && n > MAX_MESSAGE_BYTES ==> (r matches Ok(
                Err(e),
            ) && e@ == EncodeErrorKind::MessageTooLarge)
            &&& n <= usize::MAX && !exceeds(limits@, n as int) && n <= MAX_MESSAGE_BYTES ==> (r matches Ok(
                Ok(w),
            ) && w@ == outer_wire(payload@, signature_carrier@))
        }),
{
    let ghost n = outer_wire(payload@, signature_carrier@).len();
    assert(n == outer_wire_len(payload@.len(), signature_carrier@.len()));
    let total = match raw_outer_size(payload.len(), signature_carrier.len()) {
        Some(t) => t,
        None => return Err(limits.size_computation_overflow(ArtifactResourceForm::Protobuf)),
    };
    if total > usize::MAX as u64 {
        return Err(limits.size_computation_overflow(ArtifactResourceForm::Protobuf));
    }
    let encoded_len = total as usize;
    match limits.check_output_size(ArtifactResourceForm::Protobuf, encoded_len) {
        Ok(_) => {},
        Err(e) => return Err(e),
    }
    match check_encoded_message_size(encoded_len) {
        Ok(_) => Ok(Ok(compose_proto_outer(payload, signature_carrier))),
        Err(e) => Ok(Err(e)),
    }
}

/// The outer scan over the whole wire.
fn decompose_raw_outer(wire: &[u8], mode: OuterConformance) -> (r: ProtoOuterDecomposeOutcome)
    ensures
        outer_outcome_is(r, proto_outer_decomposition(wire@, mode)),
{
    let strict = mode == OuterConformance::Strict;
    let mut payload: Option<Vec<u8>> = None;
    let mut signature_carrier: Option<Vec<u8>> = None;
    let mut index: usize = 0;
    while index < wire.len()
        invariant
            index <= wire.len(),
            strict == (mode == OuterConformance::Strict),
            proto_outer_decomposition(wire@, mode) == outer_scan(
                wire@,
                strict,
                index as int,
                opt_bytes(payload),
                opt_bytes(signature_carrier),
            ),
        decreases wire.len() - index,
    {
        let (field, wire_type, next) = match read_tag(wire, index) {
            Some(v) => v,
            None => return ProtoOuterDecomposeOutcome::Malformed,
        };
        proof {
            lemma_read_varint_progress(wire@, index as int, 0);
        }
        if wire_type != 2 {
            if strict {
                return ProtoOuterDecomposeOutcome::Malformed;
            }
            proof {
                lemma_skip_field_progress(wire@, wire_type as nat, next as int);
            }
            index = match skip_field(wire_type, wire, next) {
                Some(m) => m,
                None => return ProtoOuterDecomposeOutcome::Malformed,
            };
            continue;
        }
        let (length, after) = match read_length(wire, next) {
            Some(v) => v,
            None => return ProtoOuterDecomposeOutcome::Malformed,
        };
        proof {
            lemma_read_varint_progress(wire@, next as int, 0);
        }
        if length > wire.len() - after {
            return ProtoOuterDecomposeOutcome::Malformed;
        }
        let value = slice_to_vec(&wire[after..after + length]);
        index = after + length;
        if field == 1 {
            if strict && payload.is_some() {
                return ProtoOuterDecomposeOutcome::Malformed;
            }
            payload = Some(value);
        } else if field == 2 {
            if signature_carrier.is_some() {
                return ProtoOuterDecomposeOutcome::Malformed;
            }
            signature_carrier = Some(value);
        } else if strict {
            return ProtoOuterDecomposeOutcome::Malformed;
        }
    }
    let ghost seen = opt_bytes(payload);
    match signature_carrier {
        Some(carrier) => {
            let payload = match payload {
                Some(p) => p,
                None => Vec::new(),
            };
            assert(payload@ =~= match seen {
                Some(p) => p,
                None => Seq::<u8>::empty(),
            });
            ProtoOuterDecomposeOutcome::Decomposed { payload, signature_carrier: carrier }
        },
        None => ProtoOuterDecomposeOutcome::Malformed,
    }
}

/// Decompose outer wire bytes under the selected outer-envelope conformance
/// mode. No size limit is applied.
pub fn decompose_proto_outer(wire: &[u8], mode: OuterConformance) -> (r:
    ProtoOuterDecomposeOutcome)
    ensures
        outer_outcome_is(r, proto_outer_decomposition(wire@, mode)),
{
    decompose_raw_outer(wire, mode)
}

/// Decompose outer wire bytes after applying an explicit complete-input
/// policy. The raw input length is checked before any tag is read.
pub fn decompose_proto_outer_with_resource_limits(
    wire: &[u8],
    mode: OuterConformance,
    limits: &ArtifactResourceLimits,
) -> (r: Result<ProtoOuterDecomposeOutcome, ArtifactResourceError>)
    ensures
        exceeds(limits@, wire@.len() as int) ==> (r matches Err(e) && e@ == error_facts(
            ArtifactResourceErrorKind::InputArtifactTooLarge,
            ArtifactResourceForm::Protobuf,
            limits@,
            Some(wire@.len() as usize),
        )),
        !exceeds(limits@, wire@.len() as int) ==> (r matches Ok(o) && outer_outcome_is(
            o,
            proto_outer_decomposition(wire@, mode),
        )),
{
    match limits.check_input_size(ArtifactResourceForm::Protobuf, wire) {
        Ok(admitted) => Ok(decompose_proto_outer(admitted, mode)),
        Err(e) => Err(e),
    }
}

/// Decomposing a composed outer artifact gives back its payload and
/// carrier, under either conformance mode.
pub proof fn lemma_proto_outer_round_trip(
    payload: Seq<u8>,
    carrier: Seq<u8>,
    mode: OuterConformance,
)
    requires
        payload.len() <= usize::MAX,
        carrier.len() <= usize::MAX,
    ensures
        proto_outer_decomposition(outer_wire(payload, carrier), mode) == Some((payload, carrier)),
{
    let w = outer_wire(payload, carrier);
    let strict = mode == OuterConformance::Strict;
    let e1 = varint_bytes(payload.len());
    let e2 = varint_bytes(carrier.len());
    lemma_varint_bytes_len(payload.len());
    lemma_varint_bytes_len(carrier.len());
    lemma_pow128_facts(0);
    let m1: int = 1 + e1.len() as int;
    let n1: int = m1 + payload.len();
    let m2: int = n1 + 1 + e2.len();
    assert(w.len() == m2 + carrier.len());
    // First field.
    assert(w[0] == 0x0a);
    assert(read_varint_from(w, 0, 0) == Some((10nat, 1int)));
    assert(read_tag_at(w, 0) == Some((1nat, 2nat, 1int)));
    assert(w.subrange(1, 1 + e1.len() as int) =~= e1);
    lemma_read_varint_bytes(w, 1, payload.len(), 0);
    assert(read_length_at(w, 1) == Some((payload.len(), m1)));
    assert(w.subrange(m1, n1) =~= payload);
    // Second field.
    assert(w[n1] == 0x12);
    assert(read_varint_from(w, n1, 0) == Some((18nat, n1 + 1)));
    assert(read_tag_at(w, n1) == Some((2nat, 2nat, n1 + 1)));
    assert(w.subrange(n1 + 1, n1 + 1 + e2.len()) =~= e2);
    lemma_read_varint_bytes(w, n1 + 1, carrier.len(), 0);
    assert(read_length_at(w, n1 + 1) == Some((carrier.len(), m2)));
    assert(w.subrange(m2, m2 + carrier.len()) =~= carrier);
    assert(outer_scan(w, strict, m2 + carrier.len(), Some(payload), Some(carrier)) == Some(
        (payload, carrier),
    ));
    assert(outer_scan(w, strict, n1, Some(payload), None) == Some((payload, carrier)));
    assert(outer_scan(w, strict, 0, None, None) == Some((payload, carrier)));
}

/// A length-delimited field with number `field` and value `value`.
pub open spec fn ld_field(field: nat, value: Seq<u8>) -> Seq<u8> {
    varint_bytes(field * 8 + 2) + varint_bytes(value.len()) + value
}

/// A varint that reads within `b` reads the same with bytes appended.
proof fn lemma_read_varint_append(b: Seq<u8>, x: Seq<u8>, i: int, k: nat)
    requires
        read_varint_from(b, i, k) is Some,
    ensures
        read_varint_from(b + x, i, k) == read_varint_from(b, i, k),
    decreases b.len() - i,
{
    if 0 <= i < b.len() {
        assert((b + x)[i] == b[i]);
        if k < 9 && b[i] >= 128 {
            lemma_read_varint_append(b, x, i + 1, k + 1);
        }
    }
}

/// A scan that succeeds over `w` from `i` reads the same fields in `w + x`
/// and reaches the end of `w` in the same state; what the appended bytes
/// do there decides the result.
proof fn lemma_outer_scan_append(
    w: Seq<u8>,
    x: Seq<u8>,
    strict: bool,
    i: int,
    payload: Option<Seq<u8>>,
    sig: Option<Seq<u8>>,
)
    requires
        0 <= i <= w.len(),
        outer_scan(w, strict, i, payload, sig) is Some,
        forall|p2: Option<Seq<u8>>, s2: Option<Seq<u8>>|
            #[trigger] outer_scan(w + x, strict, w.len() as int, p2, s2) == (if strict {
                None::<(Seq<u8>, Seq<u8>)>
            } else {
                outer_scan(w, strict, w.len() as int, p2, s2)
            }),
    ensures
        outer_scan(w + x, strict, i, payload, sig) == (if strict {
            None::<(Seq<u8>, Seq<u8>)>
        } else {
            outer_scan(w, strict, i, payload, sig)
        }),
    decreases w.len() - i,
{
    if i < w.len() {
        let b = w + x;
        lemma_read_varint_append(w, x, i, 0);
        let (field, wt, n) = read_tag_at(w, i)->0;
        if wt != 2 {
            lemma_skip_field_progress(w, wt, n);
            let m = skip_field_at(w, wt, n)->0;
            if wt == 0 {
                lemma_read_varint_append(w, x, n, 0);
            } else if wt == 2 {
                lemma_read_varint_append(w, x, n, 0);
            }
            assert(skip_field_at(b, wt, n) == Some(m));
            lemma_outer_scan_append(w, x, strict, m, payload, sig);
        } else {
            lemma_read_varint_append(w, x, n, 0);
            let (l, m) = read_length_at(w, n)->0;
            assert(b.subrange(m, m + l) =~= w.subrange(m, m + l));
            let value = w.subrange(m, m + l);
            if field == 1 {
                lemma_outer_scan_append(w, x, strict, m + l, Some(value), sig);
            } else if field == 2 {
                lemma_outer_scan_append(w, x, strict, m + l, payload, Some(value));
            } else {
                lemma_outer_scan_append(w, x, strict, m + l, payload, sig);
            }
        }
    }
}

/// At the end of `w`, an appended field numbered neither 1 nor 2 is refused
/// in strict mode and skipped otherwise.
proof fn lemma_outer_scan_unknown_field(
    w: Seq<u8>,
    field: nat,
    value: Seq<u8>,
    strict: bool,
    payload: Option<Seq<u8>>,
    sig: Option<Seq<u8>>,
)
    requires
        3 <= field <= MAX_PROTOBUF_FIELD_NUMBER,
        value.len() <= usize::MAX,
    ensures
        outer_scan(w + ld_field(field, value), strict, w.len() as int, payload, sig) == (if strict {
            None::<(Seq<u8>, Seq<u8>)>
        } else {
            outer_scan(w, strict, w.len() as int, payload, sig)
        }),
{
    let t = field * 8 + 2;
    let f = ld_field(field, value);
    let b = w + f;
    let et = varint_bytes(t);
    let el = varint_bytes(value.len());
    lemma_pow128_facts(0);
    lemma_varint_bytes_len(t);
    lemma_varint_bytes_len(value.len());
    let i = w.len() as int;
    assert(b.subrange(i, i + et.len()) =~= et);
    lemma_read_varint_bytes(b, i, t, 0);
    assert(t / 8 == field && t % 8 == 2) by (nonlinear_arith)
        requires
            t == field * 8 + 2,
    ;
    assert(read_tag_at(b, i) == Some((field, 2nat, i + et.len())));
    let n = i + et.len();
    assert(b.subrange(n, n + el.len()) =~= el);
    lemma_read_varint_bytes(b, n, value.len(), 0);
    assert(read_length_at(b, n) == Some((value.len(), n + el.len())));
    assert(n + el.len() + value.len() == b.len());
    assert(b.subrange(n + el.len(), b.len() as int) =~= value);
    assert(outer_scan(b, strict, b.len() as int, payload, sig) == outer_scan(
        w,
        strict,
        w.len() as int,
        payload,
        sig,
    ));
}

/// Only strict conformance refuses unknown fields: appending a well-formed
/// length-delimited field numbered neither 1 nor 2 to a wire that
/// decomposes leaves its signature-strict decomposition unchanged, and
/// makes a wire that decomposes strictly fail strict decomposition.
pub proof fn lemma_unknown_field_only_refused_when_strict(wire: Seq<u8>, field: nat, value: Seq<u8>)
    requires
        3 <= field <= MAX_PROTOBUF_FIELD_NUMBER,
        value.len() <= usize::MAX,
    ensures
        proto_outer_decomposition(wire, OuterConformance::SignatureStrict) is Some
            ==> proto_outer_decomposition(wire + ld_field(field, value), OuterConformance::SignatureStrict)
            == proto_outer_decomposition(wire, OuterConformance::SignatureStrict),
        proto_outer_decomposition(wire, OuterConformance::Strict) is Some ==> proto_outer_decomposition(
            wire + ld_field(field, value),
            OuterConformance::Strict,
        ) is None,
{
    let x = ld_field(field, value);
    assert forall|p2: Option<Seq<u8>>, s2: Option<Seq<u8>>|
        #[trigger] outer_scan(wire + x, false, wire.len() as int, p2, s2) == outer_scan(
            wire,
            false,
            wire.len() as int,
            p2,
            s2,
        ) by {
        lemma_outer_scan_unknown_field(wire, field, value, false, p2, s2);
    }
    assert forall|p2: Option<Seq<u8>>, s2: Option<Seq<u8>>|
        #[trigger] outer_scan(wire + x, true, wire.len() as int, p2, s2) == None::<(Seq<u8>, Seq<u8>)> by {
        lemma_outer_scan_unknown_field(wire, field, value, true, p2, s2);
    }
    if proto_outer_decomposition(wire, OuterConformance::SignatureStrict) is Some {
        lemma_outer_scan_append(wire, x, false, 0, None, None);
    }
    if proto_outer_decomposition(wire, OuterConformance::Strict) is Some {
        lemma_outer_scan_append(wire, x, true, 0, None, None);
    }
}

} // verus!
