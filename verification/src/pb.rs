//! The protobuf messages `YamlSigilSignature` and `SignedYamlArtifact`:
//! owned forms, zero-copy borrowed views, decoding with merge semantics and
//! retained unknown fields, and canonical encoding.

use vstd::prelude::*;
use vstd::slice::slice_to_vec;
use vstd::utf8::{encode_utf8, valid_utf8};
use crate::algorithm::{algorithm_of_wire, wire_value, AlgorithmId};
use crate::bytes::append_bytes;
use crate::external::str_from_utf8;
use crate::pb_error::{
    check_encoded_message_size, DecodeError, DecodeErrorKind, EncodeError, EncodeErrorKind,
    MAX_MESSAGE_BYTES,
};
use crate::pb_wire::{
    canon_value, ld_at, read_field_tag, read_len_delimited, read_varint_checked, skip_value, tag_at,
    varint_at, write_canonical_value, RECURSION_LIMIT,
};
use crate::proto_outer::len_field_bytes;
use crate::resource::{
    error_facts, exceeds, ArtifactResourceError, ArtifactResourceErrorKind, ArtifactResourceForm,
    ArtifactResourceLimits,
};
use crate::varint::{
    lemma_varint_bytes_len, push_varint, read_varint_from, varint_bytes, varint_len,
};

verus! {

/// The content of a `YamlSigilSignature` message.
pub struct SigModel {
    /// The raw `alg` enum number.
    pub alg: i32,
    /// The UTF-8 bytes of the key identifier, when present.
    pub keyid: Option<Seq<u8>>,
    /// The raw signature octets.
    pub signature: Seq<u8>,
    /// The retained unknown fields, in wire order.
    pub unknown: Seq<u8>,
}

/// The content of a `SignedYamlArtifact` message.
pub struct ArtifactModel {
    pub payload: Seq<u8>,
    pub signature: Option<SigModel>,
    pub unknown: Seq<u8>,
}

/// A signature message with every field at its default.
pub open spec fn empty_sig() -> SigModel {
    SigModel { alg: 0, keyid: None, signature: Seq::empty(), unknown: Seq::empty() }
}

/// An artifact message with every field at its default.
pub open spec fn empty_artifact() -> ArtifactModel {
    ArtifactModel { payload: Seq::empty(), signature: None, unknown: Seq::empty() }
}

/// The low 32 bits of `v` read as a two's-complement `i32`.
pub open spec fn to_i32(v: nat) -> i32 {
    let low = v % 0x1_0000_0000;
    if low < 0x8000_0000 {
        low as i32
    } else {
        (low - 0x1_0000_0000) as i32
    }
}

/// The varint value of an `int32` enum number (sign-extended to 64 bits).
pub open spec fn i32_varint(v: i32) -> nat {
    if v >= 0 {
        v as nat
    } else {
        (v + 0x1_0000_0000_0000_0000) as nat
    }
}

/// The bytes an unknown field at `i` (tag up to `n`, value up to `m`)
/// contributes to the retained unknown fields: the raw bytes, or their
/// canonical re-encoding.
pub open spec fn unknown_piece(
    b: Seq<u8>,
    i: int,
    m: int,
    field: nat,
    wt: nat,
    n: int,
    depth: nat,
    canonical: bool,
) -> Seq<u8> {
    if canonical {
        varint_bytes(field * 8 + wt) + canon_value(b, n, field, wt, depth)
    } else {
        b.subrange(i, m)
    }
}

/// Decoding signature-message fields from `i` into `st` (protobuf merge:
/// later fields replace earlier ones, unknown fields are appended).
pub open spec fn sig_scan(b: Seq<u8>, i: int, st: SigModel, depth: nat, canonical: bool) -> Result<
    SigModel,
    DecodeErrorKind,
>
    decreases b.len() - i,
{
    if i < 0 || i >= b.len() {
        Ok(st)
    } else {
        match tag_at(b, i) {
            Err(k) => Err(k),
            Ok((f, wt, n)) => if !(i < n && n <= b.len()) {
                Err(DecodeErrorKind::Other)
            } else if f == 1 {
                if wt != 0 {
                    Err(DecodeErrorKind::UnexpectedWireType)
                } else {
                    match varint_at(b, n) {
                        Err(k) => Err(k),
                        Ok((v, m)) => if !(n < m && m <= b.len()) {
                            Err(DecodeErrorKind::Other)
                        } else {
                            sig_scan(
                                b,
                                m,
                                SigModel {
                                    alg: to_i32(v),
                                    keyid: st.keyid,
                                    signature: st.signature,
                                    unknown: st.unknown,
                                },
                                depth,
                                canonical,
                            )
                        },
                    }
                }
            } else if f == 2 || f == 3 {
                if wt != 2 {
                    Err(DecodeErrorKind::UnexpectedWireType)
                } else {
                    match ld_at(b, n) {
                        Err(k) => Err(k),
                        Ok((s, e)) => if !(n < s && s <= e && e <= b.len()) {
                            Err(DecodeErrorKind::Other)
                        } else if f == 2 {
                            if !valid_utf8(b.subrange(s, e)) {
                                Err(DecodeErrorKind::InvalidUtf8)
                            } else {
                                sig_scan(
                                    b,
                                    e,
                                    SigModel {
                                        alg: st.alg,
                                        keyid: Some(b.subrange(s, e)),
                                        signature: st.signature,
                                        unknown: st.unknown,
                                    },
                                    depth,
                                    canonical,
                                )
                            }
                        } else {
                            sig_scan(
                                b,
                                e,
                                SigModel {
                                    alg: st.alg,
                                    keyid: st.keyid,
                                    signature: b.subrange(s, e),
                                    unknown: st.unknown,
                                },
                                depth,
                                canonical,
                            )
                        },
                    }
                }
            } else {
                match skip_value(b, n, f, wt, depth) {
                    Err(k) => Err(k),
                    Ok(m) => if !(n <= m && m <= b.len()) {
                        Err(DecodeErrorKind::Other)
                    } else {
                        sig_scan(
                            b,
                            m,
                            SigModel {
                                alg: st.alg,
                                keyid: st.keyid,
                                signature: st.signature,
                                unknown: st.unknown + unknown_piece(b, i, m, f, wt, n, depth, canonical),
                            },
                            depth,
                            canonical,
                        )
                    },
                }
            },
        }
    }
}

/// Decoding artifact-message fields from `i` into `st`. A repeated
/// `signature` field merges into the signature decoded so far.
pub open spec fn artifact_scan(b: Seq<u8>, i: int, st: ArtifactModel, depth: nat, canonical: bool) -> Result<
    ArtifactModel,
    DecodeErrorKind,
>
    decreases b.len() - i,
{
    if i < 0 || i >= b.len() {
        Ok(st)
    } else {
        match tag_at(b, i) {
            Err(k) => Err(k),
            Ok((f, wt, n)) => if !(i < n && n <= b.len()) {
                Err(DecodeErrorKind::Other)
            } else if f == 1 || f == 2 {
                if wt != 2 {
                    Err(DecodeErrorKind::UnexpectedWireType)
                } else {
                    match ld_at(b, n) {
                        Err(k) => Err(k),
                        Ok((s, e)) => if !(n < s && s <= e && e <= b.len()) {
                            Err(DecodeErrorKind::Other)
                        } else if f == 1 {
                            artifact_scan(
                                b,
                                e,
                                ArtifactModel {
                                    payload: b.subrange(s, e),
                                    signature: st.signature,
                                    unknown: st.unknown,
                                },
                                depth,
                                canonical,
                            )
                        } else if depth == 0 {
                            Err(DecodeErrorKind::RecursionLimitExceeded)
                        } else {
                            let base = match st.signature {
                                Some(sm) => sm,
                                None => empty_sig(),
                            };
                            match sig_scan(b.subrange(s, e), 0, base, (depth - 1) as nat, canonical) {
                                Err(k) => Err(k),
                                Ok(sm) => artifact_scan(
                                    b,
                                    e,
                                    ArtifactModel {
                                        payload: st.payload,
                                        signature: Some(sm),
                                        unknown: st.unknown,
                                    },
                                    depth,
                                    canonical,
                                ),
                            }
                        },
                    }
                }
            } else {
                match skip_value(b, n, f, wt, depth) {
                    Err(k) => Err(k),
                    Ok(m) => if !(n <= m && m <= b.len()) {
                        Err(DecodeErrorKind::Other)
                    } else {
                        artifact_scan(
                            b,
                            m,
                            ArtifactModel {
                                payload: st.payload,
                                signature: st.signature,
                                unknown: st.unknown + unknown_piece(b, i, m, f, wt, n, depth, canonical),
                            },
                            depth,
                            canonical,
                        )
                    },
                }
            },
        }
    }
}

/// Decoding a complete `YamlSigilSignature` message into an owned message,
/// whose unknown fields are kept in canonical form.
pub open spec fn decode_signature_model(b: Seq<u8>) -> Result<SigModel, DecodeErrorKind> {
    if b.len() > MAX_MESSAGE_BYTES {
        Err(DecodeErrorKind::MessageTooLarge)
    } else {
        sig_scan(b, 0, empty_sig(), RECURSION_LIMIT as nat, true)
    }
}

/// The signature field that a scan yields is no longer than the input.
pub proof fn lemma_sig_scan_signature_len(b: Seq<u8>, i: int, st: SigModel, depth: nat, canonical: bool)
    requires
        st.signature.len() <= b.len(),
    ensures
        sig_scan(b, i, st, depth, canonical) matches Ok(m) ==> m.signature.len() <= b.len(),
    decreases b.len() - i,
{
    if 0 <= i < b.len() {
        match tag_at(b, i) {
            Err(_) => {},
            Ok((f, wt, n)) => if i < n && n <= b.len() {
                if f == 1 {
                    if wt == 0 {
                        match varint_at(b, n) {
                            Err(_) => {},
                            Ok((v, m)) => if n < m && m <= b.len() {
                                lemma_sig_scan_signature_len(
                                    b,
                                    m,
                                    SigModel {
                                        alg: to_i32(v),
                                        keyid: st.keyid,
                                        signature: st.signature,
                                        unknown: st.unknown,
                                    },
                                    depth,
                                    canonical,
                                );
                            },
                        }
                    }
                } else if f == 2 || f == 3 {
                    if wt == 2 {
                        match ld_at(b, n) {
                            Err(_) => {},
                            Ok((s, e)) => if n < s && s <= e && e <= b.len() {
                                if f == 2 {
                                    lemma_sig_scan_signature_len(
                                        b,
                                        e,
                                        SigModel {
                                            alg: st.alg,
                                            keyid: Some(b.subrange(s, e)),
                                            signature: st.signature,
                                            unknown: st.unknown,
                                        },
                                        depth,
                                        canonical,
                                    );
                                } else {
                                    lemma_sig_scan_signature_len(
                                        b,
                                        e,
                                        SigModel {
                                            alg: st.alg,
                                            keyid: st.keyid,
                                            signature: b.subrange(s, e),
                                            unknown: st.unknown,
                                        },
                                        depth,
                                        canonical,
                                    );
                                }
                            },
                        }
                    }
                } else {
                    match skip_value(b, n, f, wt, depth) {
                        Err(_) => {},
                        Ok(m) => if n <= m && m <= b.len() {
                            lemma_sig_scan_signature_len(
                                b,
                                m,
                                SigModel {
                                    alg: st.alg,
                                    keyid: st.keyid,
                                    signature: st.signature,
                                    unknown: st.unknown + unknown_piece(b, i, m, f, wt, n, depth, canonical),
                                },
                                depth,
                                canonical,
                            );
                        },
                    }
                }
            },
        }
    }
}

/// Decoding a complete `YamlSigilSignature` message into a borrowed view,
/// whose unknown fields are the raw input bytes.
pub open spec fn decode_signature_view_model(b: Seq<u8>) -> Result<SigModel, DecodeErrorKind> {
    if b.len() > MAX_MESSAGE_BYTES {
        Err(DecodeErrorKind::MessageTooLarge)
    } else {
        sig_scan(b, 0, empty_sig(), RECURSION_LIMIT as nat, false)
    }
}

/// Decoding a complete `SignedYamlArtifact` message into an owned message,
/// whose unknown fields are kept in canonical form.
pub open spec fn decode_artifact_model(b: Seq<u8>) -> Result<ArtifactModel, DecodeErrorKind> {
    if b.len() > MAX_MESSAGE_BYTES {
        Err(DecodeErrorKind::MessageTooLarge)
    } else {
        artifact_scan(b, 0, empty_artifact(), RECURSION_LIMIT as nat, true)
    }
}

/// Decoding a complete `SignedYamlArtifact` message into a borrowed view,
/// whose unknown fields are the raw input bytes.
pub open spec fn decode_artifact_view_model(b: Seq<u8>) -> Result<ArtifactModel, DecodeErrorKind> {
    if b.len() > MAX_MESSAGE_BYTES {
        Err(DecodeErrorKind::MessageTooLarge)
    } else {
        artifact_scan(b, 0, empty_artifact(), RECURSION_LIMIT as nat, false)
    }
}

/// The canonical wire form of a signature message: non-default known
/// fields in field order, then the retained unknown fields.
pub open spec fn sig_wire(m: SigModel) -> Seq<u8> {
    (if m.alg != 0 {
        seq![0x08u8] + varint_bytes(i32_varint(m.alg))
    } else {
        Seq::<u8>::empty()
    }) + match m.keyid {
        Some(k) => len_field_bytes(0x12, k),
        None => Seq::<u8>::empty(),
    } + (if m.signature.len() > 0 {
        len_field_bytes(0x1a, m.signature)
    } else {
        Seq::<u8>::empty()
    }) + m.unknown
}

/// The canonical wire form of an artifact message.
pub open spec fn artifact_wire(a: ArtifactModel) -> Seq<u8> {
    (if a.payload.len() > 0 {
        len_field_bytes(0x0a, a.payload)
    } else {
        Seq::<u8>::empty()
    }) + match a.signature {
        Some(s) => len_field_bytes(0x12, sig_wire(s)),
        None => Seq::<u8>::empty(),
    } + a.unknown
}

/// The concatenation of byte strings.
pub open spec fn concat_all(parts: Seq<Seq<u8>>) -> Seq<u8>
    decreases parts.len(),
{
    if parts.len() == 0 {
        Seq::empty()
    } else {
        concat_all(parts.drop_last()) + parts.last()
    }
}

pub open spec fn slice_views<'a>(v: Seq<&'a [u8]>) -> Seq<Seq<u8>> {
    v.map_values(|s: &'a [u8]| s@)
}

pub open spec fn keyid_bytes<'a>(k: Option<&'a str>) -> Option<Seq<u8>> {
    match k {
        Some(s) => Some(encode_utf8(s@)),
        None => None,
    }
}

pub open spec fn owned_keyid_bytes(k: Option<String>) -> Option<Seq<u8>> {
    match k {
        Some(s) => Some(encode_utf8(s@)),
        None => None,
    }
}

/// Zero-copy borrowed view of a `YamlSigilSignature` message.
#[derive(Debug)]
pub struct YamlSigilSignatureRef<'a> {
    alg: i32,
    keyid: Option<&'a str>,
    signature: &'a [u8],
    /// The unknown fields as they occur in the input.
    unknown: Vec<&'a [u8]>,
    /// The canonical re-encoding of `unknown`, which an owned copy keeps.
    canonical_unknown: Vec<u8>,
}

impl<'a> View for YamlSigilSignatureRef<'a> {
    type V = SigModel;

    closed spec fn view(&self) -> SigModel {
        SigModel {
            alg: self.alg,
            keyid: keyid_bytes(self.keyid),
            signature: self.signature@,
            unknown: concat_all(slice_views(self.unknown@)),
        }
    }
}

impl<'a> YamlSigilSignatureRef<'a> {
    /// The content of an owned copy: the unknown fields in canonical form.
    pub closed spec fn owned_view(&self) -> SigModel {
        SigModel { unknown: self.canonical_unknown@, ..self@ }
    }
}

/// Zero-copy borrowed view of a `SignedYamlArtifact` message.
#[derive(Debug)]
pub struct SignedYamlArtifactRef<'a> {
    payload: &'a [u8],
    signature: Option<YamlSigilSignatureRef<'a>>,
    /// The unknown fields as they occur in the input.
    unknown: Vec<&'a [u8]>,
    /// The canonical re-encoding of `unknown`, which an owned copy keeps.
    canonical_unknown: Vec<u8>,
}

pub open spec fn opt_sig_view<'a>(s: Option<YamlSigilSignatureRef<'a>>) -> Option<SigModel> {
    match s {
        Some(r) => Some(r@),
        None => None,
    }
}

impl<'a> View for SignedYamlArtifactRef<'a> {
    type V = ArtifactModel;

    closed spec fn view(&self) -> ArtifactModel {
        ArtifactModel {
            payload: self.payload@,
            signature: opt_sig_view(self.signature),
            unknown: concat_all(slice_views(self.unknown@)),
        }
    }
}

pub open spec fn opt_sig_owned_view<'a>(s: Option<YamlSigilSignatureRef<'a>>) -> Option<SigModel> {
    match s {
        Some(r) => Some(r.owned_view()),
        None => None,
    }
}

impl<'a> SignedYamlArtifactRef<'a> {
    /// The content of an owned copy: unknown fields, the signature's too, in
    /// canonical form.
    pub closed spec fn owned_view(&self) -> ArtifactModel {
        ArtifactModel {
            payload: self.payload@,
            signature: opt_sig_owned_view(self.signature),
            unknown: self.canonical_unknown@,
        }
    }
}

proof fn lemma_slice_views_push<'a>(v: Seq<&'a [u8]>, s: &'a [u8])
    ensures
        concat_all(slice_views(v.push(s))) == concat_all(slice_views(v)) + s@,
{
    assert(slice_views(v.push(s)).drop_last() =~= slice_views(v));
}

/// An empty signature view.
fn empty_sig_ref<'a>(data: &'a [u8]) -> (r: YamlSigilSignatureRef<'a>)
    ensures
        r@ == empty_sig(),
        r.owned_view() == empty_sig(),
{
    let r = YamlSigilSignatureRef {
        alg: 0,
        keyid: None,
        signature: &data[0..0],
        unknown: Vec::new(),
        canonical_unknown: Vec::new(),
    };
    assert(r.canonical_unknown@ =~= Seq::<u8>::empty());
    assert(r.signature@ =~= Seq::<u8>::empty());
    assert(r.unknown@ =~= Seq::<&'a [u8]>::empty());
    assert(slice_views(r.unknown@) =~= Seq::<Seq<u8>>::empty());
    r
}

/// The low 32 bits of a varint as a two's-complement `i32`.
fn varint_to_i32(v: u64) -> (r: i32)
    ensures
        r == to_i32(v as nat),
{
    let low = v % 0x1_0000_0000;
    if low < 0x8000_0000 {
        low as i32
    } else {
        (low as i64 - 0x1_0000_0000) as i32
    }
}

/// Decode signature-message fields from `data` into `st`, keeping the raw
/// unknown fields and their canonical re-encoding.
fn scan_signature<'a>(data: &'a [u8], st: YamlSigilSignatureRef<'a>, depth: u32) -> (r: Result<
    YamlSigilSignatureRef<'a>,
    DecodeErrorKind,
>)
    ensures
        match r {
            Ok(s) => sig_scan(data@, 0, st@, depth as nat, false) == Ok::<SigModel, DecodeErrorKind>(
                s@,
            ) && sig_scan(data@, 0, st.owned_view(), depth as nat, true) == Ok::<
                SigModel,
                DecodeErrorKind,
            >(s.owned_view()),
            Err(k) => sig_scan(data@, 0, st@, depth as nat, false) == Err::<SigModel, DecodeErrorKind>(
                k,
            ) && sig_scan(data@, 0, st.owned_view(), depth as nat, true) == Err::<
                SigModel,
                DecodeErrorKind,
            >(k),
        },
{
    let mut cur = st;
    let ghost start = st@;
    let ghost start_owned = st.owned_view();
    let mut i: usize = 0;
    while i < data.len()
        invariant
            i <= data.len(),
            start == st@,
            start_owned == st.owned_view(),
            sig_scan(data@, 0, start, depth as nat, false) == sig_scan(
                data@,
                i as int,
                cur@,
                depth as nat,
                false,
            ),
            sig_scan(data@, 0, start_owned, depth as nat, true) == sig_scan(
                data@,
                i as int,
                cur.owned_view(),
                depth as nat,
                true,
            ),
        decreases data.len() - i,
    {
        let (f, wt, n) = match read_field_tag(data, i) {
            Ok(x) => x,
            Err(k) => return Err(k),
        };
        if f == 1 {
            if wt != 0 {
                return Err(DecodeErrorKind::UnexpectedWireType);
            }
            let (v, m) = match read_varint_checked(data, n) {
                Ok(x) => x,
                Err(k) => return Err(k),
            };
            cur.alg = varint_to_i32(v);
            i = m;
        } else if f == 2 || f == 3 {
            if wt != 2 {
                return Err(DecodeErrorKind::UnexpectedWireType);
            }
            let (s, e) = match read_len_delimited(data, n) {
                Ok(x) => x,
                Err(k) => return Err(k),
            };
            let value: &'a [u8] = &data[s..e];
            if f == 2 {
                let text = match str_from_utf8(value) {
                    Some(t) => t,
                    None => return Err(DecodeErrorKind::InvalidUtf8),
                };
                proof {
                    vstd::utf8::decode_utf8_encode_utf8(value@);
                }
                cur.keyid = Some(text);
            } else {
                cur.signature = value;
            }
            i = e;
        } else {
            let ghost canon_before = cur.canonical_unknown@;
            push_varint(&mut cur.canonical_unknown, (f as u64) * 8 + (wt as u64));
            let m = match write_canonical_value(data, n, f, wt, depth, &mut cur.canonical_unknown) {
                Ok(m) => m,
                Err(k) => return Err(k),
            };
            proof {
                assert(cur.canonical_unknown@ =~= canon_before + unknown_piece(
                    data@,
                    i as int,
                    m as int,
                    f as nat,
                    wt as nat,
                    n as int,
                    depth as nat,
                    true,
                ));
            }
            let raw: &'a [u8] = &data[i..m];
            let ghost before = cur.unknown@;
            cur.unknown.push(raw);
            proof {
                lemma_slice_views_push(before, raw);
            }
            i = m;
        }
    }
    Ok(cur)
}

/// Decode artifact-message fields from `data`, keeping the raw unknown
/// fields and their canonical re-encoding.
fn scan_artifact<'a>(data: &'a [u8], depth: u32) -> (r: Result<
    SignedYamlArtifactRef<'a>,
    DecodeErrorKind,
>)
    ensures
        match r {
            Ok(a) => artifact_scan(data@, 0, empty_artifact(), depth as nat, false) == Ok::<
                ArtifactModel,
                DecodeErrorKind,
            >(a@) && artifact_scan(data@, 0, empty_artifact(), depth as nat, true) == Ok::<
                ArtifactModel,
                DecodeErrorKind,
            >(a.owned_view()),
            Err(k) => artifact_scan(data@, 0, empty_artifact(), depth as nat, false) == Err::<
                ArtifactModel,
                DecodeErrorKind,
            >(k) && artifact_scan(data@, 0, empty_artifact(), depth as nat, true) == Err::<
                ArtifactModel,
                DecodeErrorKind,
            >(k),
        },
{
    let mut st = SignedYamlArtifactRef {
        payload: &data[0..0],
        signature: None,
        unknown: Vec::new(),
        canonical_unknown: Vec::new(),
    };
    assert(st.payload@ =~= Seq::<u8>::empty());
    assert(slice_views(st.unknown@) =~= Seq::<Seq<u8>>::empty());
    assert(st@ =~= empty_artifact());
    assert(st.canonical_unknown@ =~= Seq::<u8>::empty());
    assert(st.owned_view() =~= empty_artifact());
    let mut i: usize = 0;
    while i < data.len()
        invariant
            i <= data.len(),
            artifact_scan(data@, 0, empty_artifact(), depth as nat, false) == artifact_scan(
                data@,
                i as int,
                st@,
                depth as nat,
                false,
            ),
            artifact_scan(data@, 0, empty_artifact(), depth as nat, true) == artifact_scan(
                data@,
                i as int,
                st.owned_view(),
                depth as nat,
                true,
            ),
        decreases data.len() - i,
    {
        let (f, wt, n) = match read_field_tag(data, i) {
            Ok(x) => x,
            Err(k) => return Err(k),
        };
        if f == 1 || f == 2 {
            if wt != 2 {
                return Err(DecodeErrorKind::UnexpectedWireType);
            }
            let (s, e) = match read_len_delimited(data, n) {
                Ok(x) => x,
                Err(k) => return Err(k),
            };
            let value: &'a [u8] = &data[s..e];
            if f == 1 {
                st.payload = value;
            } else {
                if depth == 0 {
                    return Err(DecodeErrorKind::RecursionLimitExceeded);
                }
                let base = match st.signature {
                    Some(sig) => sig,
                    None => empty_sig_ref(data),
                };
                let merged = match scan_signature(value, base, depth - 1) {
                    Ok(sig) => sig,
                    Err(k) => return Err(k),
                };
                st.signature = Some(merged);
            }
            i = e;
        } else {
            let ghost canon_before = st.canonical_unknown@;
            push_varint(&mut st.canonical_unknown, (f as u64) * 8 + (wt as u64));
            let m = match write_canonical_value(data, n, f, wt, depth, &mut st.canonical_unknown) {
                Ok(m) => m,
                Err(k) => return Err(k),
            };
            proof {
                assert(st.canonical_unknown@ =~= canon_before + unknown_piece(
                    data@,
                    i as int,
                    m as int,
                    f as nat,
                    wt as nat,
                    n as int,
                    depth as nat,
                    true,
                ));
            }
            let raw: &'a [u8] = &data[i..m];
            let ghost before = st.unknown@;
            st.unknown.push(raw);
            proof {
                lemma_slice_views_push(before, raw);
            }
            i = m;
        }
    }
    Ok(st)
}


/// Owned `YamlSigilSignature` protobuf message.
#[derive(Debug, Clone, PartialEq, Eq)]
pub struct YamlSigilSignature {
    algorithm_wire_value: i32,
    keyid: Option<String>,
    signature: Vec<u8>,
    unknown_fields: Vec<u8>,
}

impl View for YamlSigilSignature {
    type V = SigModel;

    closed spec fn view(&self) -> SigModel {
        SigModel {
            alg: self.algorithm_wire_value,
            keyid: owned_keyid_bytes(self.keyid),
            signature: self.signature@,
            unknown: self.unknown_fields@,
        }
    }
}

/// Owned `SignedYamlArtifact` protobuf message.
#[derive(Debug, Clone, PartialEq, Eq)]
pub struct SignedYamlArtifact {
    payload: Vec<u8>,
    signature: Option<YamlSigilSignature>,
    unknown_fields: Vec<u8>,
}

pub open spec fn opt_owned_sig_view(s: Option<YamlSigilSignature>) -> Option<SigModel> {
    match s {
        Some(m) => Some(m@),
        None => None,
    }
}

impl View for SignedYamlArtifact {
    type V = ArtifactModel;

    closed spec fn view(&self) -> ArtifactModel {
        ArtifactModel {
            payload: self.payload@,
            signature: opt_owned_sig_view(self.signature),
            unknown: self.unknown_fields@,
        }
    }
}

impl Default for YamlSigilSignature {
    /// The empty message: algorithm number 0, no key identifier, no
    /// signature octets, no unknown fields.
    fn default() -> (r: Self)
        ensures
            r@ == (SigModel { alg: 0, keyid: None, signature: Seq::empty(), unknown: Seq::empty() }),
    {
        YamlSigilSignature {
            algorithm_wire_value: 0,
            keyid: None,
            signature: Vec::new(),
            unknown_fields: Vec::new(),
        }
    }
}

impl Default for SignedYamlArtifact {
    /// The empty message: no payload octets, no signature, no unknown fields.
    fn default() -> (r: Self)
        ensures
            r@ == (ArtifactModel { payload: Seq::empty(), signature: None, unknown: Seq::empty() }),
    {
        SignedYamlArtifact { payload: Vec::new(), signature: None, unknown_fields: Vec::new() }
    }
}

/// Whether `r` reports the decoding `expected`.
pub open spec fn sig_decode_is(
    r: Result<YamlSigilSignature, DecodeError>,
    expected: Result<SigModel, DecodeErrorKind>,
) -> bool {
    match r {
        Ok(m) => expected == Ok::<SigModel, DecodeErrorKind>(m@),
        Err(e) => expected == Err::<SigModel, DecodeErrorKind>(e@),
    }
}

/// Whether `r` reports the decoding `expected`.
pub open spec fn artifact_decode_is(
    r: Result<SignedYamlArtifact, DecodeError>,
    expected: Result<ArtifactModel, DecodeErrorKind>,
) -> bool {
    match r {
        Ok(m) => expected == Ok::<ArtifactModel, DecodeErrorKind>(m@),
        Err(e) => expected == Err::<ArtifactModel, DecodeErrorKind>(e@),
    }
}

/// The protobuf encoding outcome for a message whose wire form is `wire`:
/// the size ceiling decides.
pub open spec fn encoded_len_is(r: Result<usize, EncodeError>, wire: Seq<u8>) -> bool {
    &&& wire.len() <= MAX_MESSAGE_BYTES ==> r == Ok::<usize, EncodeError>(wire.len() as usize)
    &&& wire.len() > MAX_MESSAGE_BYTES ==> (r matches Err(e) && e@
        == EncodeErrorKind::MessageTooLarge)
}

pub open spec fn encoded_vec_is(r: Result<Vec<u8>, EncodeError>, wire: Seq<u8>) -> bool {
    &&& wire.len() <= MAX_MESSAGE_BYTES ==> (r matches Ok(v) && v@ == wire)
    &&& wire.len() > MAX_MESSAGE_BYTES ==> (r matches Err(e) && e@
        == EncodeErrorKind::MessageTooLarge)
}

/// The outcome of resource-aware encoding of `wire`.
pub open spec fn resource_encoded_vec_is(
    r: Result<Result<Vec<u8>, EncodeError>, ArtifactResourceError>,
    wire: Seq<u8>,
    limits: Option<usize>,
) -> bool {
    let n = wire.len();
    &&& n > usize::MAX ==> (r matches Err(e) && e@ == error_facts(
        ArtifactResourceErrorKind::SizeComputationOverflow,
        ArtifactResourceForm::Protobuf,
        limits,
        None,
    ))
    &&& n <= usize::MAX && exceeds(limits, n as int) ==> (r matches Err(e) && e@ == error_facts(
        ArtifactResourceErrorKind::OutputArtifactTooLarge,
        ArtifactResourceForm::Protobuf,
        limits,
        Some(n as usize),
    ))
    &&& n <= usize::MAX && !exceeds(limits, n as int) && n > MAX_MESSAGE_BYTES ==> (r matches Ok(
        Err(e),
    ) && e@ == EncodeErrorKind::MessageTooLarge)
    &&& n <= usize::MAX && !exceeds(limits, n as int) && n <= MAX_MESSAGE_BYTES ==> (r matches Ok(
        Ok(v),
    ) && v@ == wire)
}

/// The varint value of an `int32` enum number.
fn i32_to_varint(v: i32) -> (r: u64)
    ensures
        r == i32_varint(v),
{
    if v >= 0 {
        v as u64
    } else {
        let magnitude_less_one: u64 = (-(v as i64) - 1) as u64;
        u64::MAX - magnitude_less_one
    }
}

/// Size of a length-delimited field with a one-byte tag.
fn ld_field_size(value_len: usize) -> (r: Option<u64>)
    ensures
        r matches Some(n) ==> n == 1 + varint_bytes(value_len as nat).len() + value_len,
        r is None ==> 1 + varint_bytes(value_len as nat).len() + value_len > u64::MAX,
{
    (1 + varint_len(value_len as u64)).checked_add(value_len as u64)
}

/// The checked sum of two optional sizes.
pub open spec fn opt_sum(a: Option<u64>, b: Option<u64>) -> Option<u64> {
    match a {
        Some(x) => match b {
            Some(y) => if x + y <= u64::MAX {
                Some((x + y) as u64)
            } else {
                None
            },
            None => None,
        },
        None => None,
    }
}

fn add_size(a: Option<u64>, b: Option<u64>) -> (r: Option<u64>)
    ensures
        r == opt_sum(a, b),
{
    match a {
        Some(x) => match b {
            Some(y) => x.checked_add(y),
            None => None,
        },
        None => None,
    }
}

/// Bytes of a retained unknown-field buffer.
fn unknown_size(unknown: &Vec<u8>) -> (r: Option<u64>)
    ensures
        r == Some(unknown@.len() as u64),
{
    Some(unknown.len() as u64)
}

impl YamlSigilSignature {
    /// Construct a signature message with a recognized algorithm.
    pub fn new(algorithm: AlgorithmId, signature: Vec<u8>) -> (r: Self)
        ensures
            r@ == (SigModel {
                alg: wire_value(algorithm),
                keyid: None,
                signature: signature@,
                unknown: Seq::empty(),
            }),
    {
        let r = YamlSigilSignature {
            algorithm_wire_value: algorithm.wire_value(),
            keyid: None,
            signature,
            unknown_fields: Vec::new(),
        };
        assert(r.unknown_fields@ =~= Seq::<u8>::empty());
        r
    }

    /// Decode an owned signature message.
    pub fn decode(input: &[u8]) -> (r: Result<Self, DecodeError>)
        ensures
            sig_decode_is(r, decode_signature_model(input@)),
    {
        if input.len() as u64 > MAX_MESSAGE_BYTES {
            return Err(DecodeError::new(DecodeErrorKind::MessageTooLarge));
        }
        match scan_signature(input, empty_sig_ref(input), RECURSION_LIMIT) {
            Ok(view) => Ok(view.to_owned_message()),
            Err(k) => Err(DecodeError::new(k)),
        }
    }

    /// Alias for [`Self::decode`].
    pub fn decode_from_slice(input: &[u8]) -> (r: Result<Self, DecodeError>)
        ensures
            sig_decode_is(r, decode_signature_model(input@)),
    {
        Self::decode(input)
    }

    /// The recognized algorithm, or `None` for zero or an unknown number.
    pub fn algorithm(&self) -> (r: Option<AlgorithmId>)
        ensures
            r == algorithm_of_wire(self@.alg),
    {
        AlgorithmId::from_i32(self.algorithm_wire_value)
    }

    /// The raw protobuf enum number, including unknown values.
    pub fn algorithm_wire_value(&self) -> (r: i32)
        ensures
            r == self@.alg,
    {
        self.algorithm_wire_value
    }

    /// Set the algorithm to a recognized value.
    pub fn set_algorithm(&mut self, algorithm: AlgorithmId)
        ensures
            final(self)@ == (SigModel { alg: wire_value(algorithm), ..old(self)@ }),
    {
        self.algorithm_wire_value = algorithm.wire_value();
    }

    /// Set the raw protobuf enum number.
    pub fn set_algorithm_wire_value(&mut self, algorithm_wire_value: i32)
        ensures
            final(self)@ == (SigModel { alg: algorithm_wire_value, ..old(self)@ }),
    {
        self.algorithm_wire_value = algorithm_wire_value;
    }

    /// The optional key identifier exactly as encoded.
    pub fn keyid(&self) -> (r: Option<&str>)
        ensures
            keyid_bytes(r) == self@.keyid,
    {
        match &self.keyid {
            Some(k) => Some(k.as_str()),
            None => None,
        }
    }

    /// Mutable access to the key identifier, when present.
    pub fn keyid_mut(&mut self) -> (r: Option<&mut String>)
        ensures
            r is Some <==> old(self)@.keyid is Some,
            r matches Some(k) ==> encode_utf8(k@) == old(self)@.keyid->0 && final(self)@ == (SigModel {
                keyid: Some(encode_utf8(final(k)@)),
                ..old(self)@
            }),
            r is None ==> final(self)@ == old(self)@,
    {
        match &mut self.keyid {
            Some(k) => Some(k),
            None => None,
        }
    }

    /// Replace the optional key identifier.
    pub fn set_keyid(&mut self, keyid: Option<String>)
        ensures
            final(self)@ == (SigModel { keyid: owned_keyid_bytes(keyid), ..old(self)@ }),
    {
        self.keyid = keyid;
    }

    /// The raw signature octets.
    pub fn signature(&self) -> (r: &[u8])
        ensures
            r@ == self@.signature,
    {
        self.signature.as_slice()
    }

    /// Mutable access to the raw signature octets.
    pub fn signature_mut(&mut self) -> (r: &mut Vec<u8>)
        ensures
            r@ == old(self)@.signature,
            final(self)@ == (SigModel { signature: final(r)@, ..old(self)@ }),
    {
        &mut self.signature
    }

    /// Replace the raw signature octets.
    pub fn set_signature(&mut self, signature: Vec<u8>)
        ensures
            final(self)@ == (SigModel { signature: signature@, ..old(self)@ }),
    {
        self.signature = signature;
    }

    /// Whether decoding retained any schema-unknown fields.
    pub fn has_unknown_fields(&self) -> (r: bool)
        ensures
            r == (self@.unknown.len() > 0),
    {
        self.unknown_fields.len() > 0
    }

    /// Discard all retained schema-unknown fields.
    pub fn discard_unknown_fields(&mut self)
        ensures
            final(self)@ == (SigModel { unknown: Seq::empty(), ..old(self)@ }),
    {
        self.unknown_fields = Vec::new();
        assert(self.unknown_fields@ =~= Seq::<u8>::empty());
    }

    /// Exact wire size, or `None` when it exceeds `u64`.
    fn raw_size(&self) -> (r: Option<u64>)
        ensures
            r matches Some(n) ==> n == sig_wire(self@).len(),
            r is None ==> sig_wire(self@).len() > u64::MAX,
    {
        let ghost m = self@;
        let ghost alg_len: int = if m.alg != 0 {
            1 + varint_bytes(i32_varint(m.alg)).len() as int
        } else {
            0
        };
        let ghost keyid_len: int = match m.keyid {
            Some(k) => len_field_bytes(0x12, k).len() as int,
            None => 0,
        };
        let ghost sig_len: int = if m.signature.len() > 0 {
            len_field_bytes(0x1a, m.signature).len() as int
        } else {
            0
        };
        assert(sig_wire(m).len() == alg_len + keyid_len + sig_len + m.unknown.len());
        let alg_part: Option<u64> = if self.algorithm_wire_value != 0 {
            Some(1 + varint_len(i32_to_varint(self.algorithm_wire_value)))
        } else {
            Some(0)
        };
        assert(alg_part == Some(alg_len as u64));
        let keyid_part: Option<u64> = match &self.keyid {
            Some(k) => ld_field_size(k.as_str().as_bytes().len()),
            None => Some(0),
        };
        assert(keyid_part matches Some(x) ==> x == keyid_len);
        assert(keyid_part is None ==> keyid_len > u64::MAX);
        let signature_part: Option<u64> = if self.signature.len() > 0 {
            ld_field_size(self.signature.len())
        } else {
            Some(0)
        };
        assert(signature_part matches Some(x) ==> x == sig_len);
        assert(signature_part is None ==> sig_len > u64::MAX);
        let a = add_size(alg_part, keyid_part);
        assert(a matches Some(x) ==> x == alg_len + keyid_len);
        assert(a is None ==> alg_len + keyid_len > u64::MAX);
        let b = add_size(a, signature_part);
        assert(b matches Some(x) ==> x == alg_len + keyid_len + sig_len);
        assert(b is None ==> alg_len + keyid_len + sig_len > u64::MAX);
        let u = unknown_size(&self.unknown_fields);
        assert(m.unknown.len() == self.unknown_fields.len());
        let r = add_size(b, u);
        assert(r matches Some(x) ==> x == alg_len + keyid_len + sig_len + m.unknown.len());
        r
    }

    /// Append the canonical wire form.
    pub(crate) fn write_wire(&self, destination: &mut Vec<u8>)
        ensures
            final(destination)@ == old(destination)@ + sig_wire(self@),
    {
        let ghost start = destination@;
        if self.algorithm_wire_value != 0 {
            destination.push(0x08);
            push_varint(destination, i32_to_varint(self.algorithm_wire_value));
        }
        let ghost after_alg = destination@;
        match &self.keyid {
            Some(k) => crate::proto_outer::push_len_field(destination, 0x12, k.as_str().as_bytes()),
            None => {},
        }
        let ghost after_keyid = destination@;
        if self.signature.len() > 0 {
            crate::proto_outer::push_len_field(destination, 0x1a, self.signature.as_slice());
        }
        append_bytes(destination, self.unknown_fields.as_slice());
        assert(destination@ =~= start + sig_wire(self@));
    }

    /// The encoded protobuf size.
    pub fn encoded_len(&self) -> (r: Result<usize, EncodeError>)
        ensures
            encoded_len_is(r, sig_wire(self@)),
    {
        match self.raw_size() {
            None => Err(EncodeError::message_too_large()),
            Some(n) => {
                if n > MAX_MESSAGE_BYTES {
                    Err(EncodeError::message_too_large())
                } else {
                    check_encoded_message_size(n as usize)
                }
            },
        }
    }

    /// Encode into a new byte vector.
    pub fn encode_to_vec(&self) -> (r: Result<Vec<u8>, EncodeError>)
        ensures
            encoded_vec_is(r, sig_wire(self@)),
    {
        match self.encoded_len() {
            Err(e) => Err(e),
            Ok(_) => {
                let mut out: Vec<u8> = Vec::new();
                self.write_wire(&mut out);
                assert(out@ =~= sig_wire(self@));
                Ok(out)
            },
        }
    }

    /// Append the encoded message; on error `destination` is unchanged.
    pub fn encode_into(&self, destination: &mut Vec<u8>) -> (r: Result<(), EncodeError>)
        ensures
            sig_wire(self@).len() <= MAX_MESSAGE_BYTES ==> r is Ok && final(destination)@
                == old(destination)@ + sig_wire(self@),
            sig_wire(self@).len() > MAX_MESSAGE_BYTES ==> (r matches Err(e) && e@
                == EncodeErrorKind::MessageTooLarge) && final(destination)@ == old(destination)@,
    {
        match self.encoded_len() {
            Err(e) => Err(e),
            Ok(_) => {
                self.write_wire(destination);
                Ok(())
            },
        }
    }
}

impl<'a> YamlSigilSignatureRef<'a> {
    /// Decode a borrowed signature view without copying string or byte fields.
    pub fn decode(input: &'a [u8]) -> (r: Result<Self, DecodeError>)
        ensures
            match r {
                Ok(v) => decode_signature_view_model(input@) == Ok::<SigModel, DecodeErrorKind>(v@)
                    && decode_signature_model(input@) == Ok::<SigModel, DecodeErrorKind>(
                    v.owned_view(),
                ),
                Err(e) => decode_signature_view_model(input@) == Err::<SigModel, DecodeErrorKind>(e@)
                    && decode_signature_model(input@) == Err::<SigModel, DecodeErrorKind>(e@),
            },
    {
        if input.len() as u64 > MAX_MESSAGE_BYTES {
            return Err(DecodeError::new(DecodeErrorKind::MessageTooLarge));
        }
        match scan_signature(input, empty_sig_ref(input), RECURSION_LIMIT) {
            Ok(view) => Ok(view),
            Err(k) => Err(DecodeError::new(k)),
        }
    }

    /// Alias for [`Self::decode`].
    pub fn decode_from_slice(input: &'a [u8]) -> (r: Result<Self, DecodeError>)
        ensures
            match r {
                Ok(v) => decode_signature_view_model(input@) == Ok::<SigModel, DecodeErrorKind>(v@)
                    && decode_signature_model(input@) == Ok::<SigModel, DecodeErrorKind>(
                    v.owned_view(),
                ),
                Err(e) => decode_signature_view_model(input@) == Err::<SigModel, DecodeErrorKind>(e@)
                    && decode_signature_model(input@) == Err::<SigModel, DecodeErrorKind>(e@),
            },
    {
        Self::decode(input)
    }

    /// The recognized algorithm, or `None` for zero or an unknown number.
    pub fn algorithm(&self) -> (r: Option<AlgorithmId>)
        ensures
            r == algorithm_of_wire(self@.alg),
    {
        AlgorithmId::from_i32(self.alg)
    }

    /// The raw protobuf enum number.
    pub fn algorithm_wire_value(&self) -> (r: i32)
        ensures
            r == self@.alg,
    {
        self.alg
    }

    /// The optional key identifier borrowed from the input.
    pub fn keyid(&self) -> (r: Option<&'a str>)
        ensures
            keyid_bytes(r) == self@.keyid,
    {
        self.keyid
    }

    /// The raw signature octets borrowed from the input.
    pub fn signature(&self) -> (r: &'a [u8])
        ensures
            r@ == self@.signature,
    {
        self.signature
    }

    /// Whether decoding retained any schema-unknown fields.
    pub fn has_unknown_fields(&self) -> (r: bool)
        ensures
            r == (self@.unknown.len() > 0),
    {
        let mut i: usize = 0;
        while i < self.unknown.len()
            invariant
                i <= self.unknown@.len(),
                concat_all(slice_views(self.unknown@.subrange(0, i as int))).len() == 0,
            decreases self.unknown.len() - i,
        {
            let ghost prefix = self.unknown@.subrange(0, i as int);
            assert(self.unknown@.subrange(0, i + 1) =~= prefix.push(self.unknown@[i as int]));
            proof {
                lemma_slice_views_push(prefix, self.unknown@[i as int]);
            }
            if self.unknown[i].len() > 0 {
                proof {
                    lemma_concat_all_prefix_len(slice_views(self.unknown@), i + 1);
                }
                return true;
            }
            i = i + 1;
        }
        assert(self.unknown@.subrange(0, i as int) =~= self.unknown@);
        false
    }

    /// Copy the borrowed fields, unknown fields as they occur in the input.
    fn to_raw_message(&self) -> (r: YamlSigilSignature)
        ensures
            r@ == self@,
    {
        let keyid = match self.keyid {
            Some(k) => Some(String::from_str(k)),
            None => None,
        };
        let mut unknown: Vec<u8> = Vec::new();
        let mut i: usize = 0;
        while i < self.unknown.len()
            invariant
                i <= self.unknown@.len(),
                unknown@ == concat_all(slice_views(self.unknown@.subrange(0, i as int))),
            decreases self.unknown.len() - i,
        {
            let ghost prefix = self.unknown@.subrange(0, i as int);
            assert(self.unknown@.subrange(0, i + 1) =~= prefix.push(self.unknown@[i as int]));
            proof {
                lemma_slice_views_push(prefix, self.unknown@[i as int]);
            }
            append_bytes(&mut unknown, self.unknown[i]);
            i = i + 1;
        }
        assert(self.unknown@.subrange(0, i as int) =~= self.unknown@);
        YamlSigilSignature {
            algorithm_wire_value: self.alg,
            keyid,
            signature: slice_to_vec(self.signature),
            unknown_fields: unknown,
        }
    }

    /// Copy the borrowed fields into an owned message, which keeps the
    /// unknown fields in canonical form.
    fn to_owned_message(&self) -> (r: YamlSigilSignature)
        ensures
            r@ == self.owned_view(),
    {
        let keyid = match self.keyid {
            Some(k) => Some(String::from_str(k)),
            None => None,
        };
        YamlSigilSignature {
            algorithm_wire_value: self.alg,
            keyid,
            signature: slice_to_vec(self.signature),
            unknown_fields: slice_to_vec(self.canonical_unknown.as_slice()),
        }
    }

    /// Copy the borrowed fields into an owned message, which keeps the
    /// unknown fields in canonical form.
    pub fn to_owned(&self) -> (r: Result<YamlSigilSignature, DecodeError>)
        ensures
            r matches Ok(m) && m@ == self.owned_view(),
    {
        Ok(self.to_owned_message())
    }

    /// The encoded protobuf size.
    pub fn encoded_len(&self) -> (r: Result<usize, EncodeError>)
        ensures
            encoded_len_is(r, sig_wire(self@)),
    {
        self.to_raw_message().encoded_len()
    }

    /// Re-encode the borrowed view into a new byte vector.
    pub fn encode_to_vec(&self) -> (r: Result<Vec<u8>, EncodeError>)
        ensures
            encoded_vec_is(r, sig_wire(self@)),
    {
        self.to_raw_message().encode_to_vec()
    }

    /// Append the re-encoded view; on error `destination` is unchanged.
    pub fn encode_into(&self, destination: &mut Vec<u8>) -> (r: Result<(), EncodeError>)
        ensures
            sig_wire(self@).len() <= MAX_MESSAGE_BYTES ==> r is Ok && final(destination)@
                == old(destination)@ + sig_wire(self@),
            sig_wire(self@).len() > MAX_MESSAGE_BYTES ==> (r matches Err(e) && e@
                == EncodeErrorKind::MessageTooLarge) && final(destination)@ == old(destination)@,
    {
        self.to_raw_message().encode_into(destination)
    }
}

/// A non-empty part makes the concatenation non-empty.
proof fn lemma_concat_all_prefix_len(parts: Seq<Seq<u8>>, n: int)
    requires
        0 < n <= parts.len(),
        parts[n - 1].len() > 0,
    ensures
        concat_all(parts).len() > 0,
    decreases parts.len(),
{
    if n < parts.len() {
        lemma_concat_all_prefix_len(parts.drop_last(), n);
        assert(parts.drop_last()[n - 1] == parts[n - 1]);
    }
}


/// Size of a length-delimited field with a one-byte tag, from a `u64` length.
fn ld_field_size_u64(value_len: u64) -> (r: Option<u64>)
    ensures
        r matches Some(n) ==> n == 1 + varint_bytes(value_len as nat).len() + value_len,
        r is None ==> 1 + varint_bytes(value_len as nat).len() + value_len > u64::MAX,
{
    (1 + varint_len(value_len)).checked_add(value_len)
}

impl SignedYamlArtifact {
    /// Construct an artifact from owned payload and signature fields.
    pub fn new(payload: Vec<u8>, signature: Option<YamlSigilSignature>) -> (r: Self)
        ensures
            r@ == (ArtifactModel {
                payload: payload@,
                signature: opt_owned_sig_view(signature),
                unknown: Seq::empty(),
            }),
    {
        let r = SignedYamlArtifact { payload, signature, unknown_fields: Vec::new() };
        assert(r.unknown_fields@ =~= Seq::<u8>::empty());
        r
    }

    /// Decode an owned artifact.
    pub fn decode(input: &[u8]) -> (r: Result<Self, DecodeError>)
        ensures
            artifact_decode_is(r, decode_artifact_model(input@)),
    {
        match SignedYamlArtifactRef::decode(input) {
            Ok(view) => Ok(view.to_owned_message()),
            Err(e) => Err(e),
        }
    }

    /// Decode an owned artifact after applying an explicit input policy.
    pub fn decode_with_resource_limits(input: &[u8], limits: &ArtifactResourceLimits) -> (r: Result<
        Result<Self, DecodeError>,
        ArtifactResourceError,
    >)
        ensures
            exceeds(limits@, input@.len() as int) ==> (r matches Err(e) && e@ == error_facts(
                ArtifactResourceErrorKind::InputArtifactTooLarge,
                ArtifactResourceForm::Protobuf,
                limits@,
                Some(input@.len() as usize),
            )),
            !exceeds(limits@, input@.len() as int) ==> (r matches Ok(d) && artifact_decode_is(
                d,
                decode_artifact_model(input@),
            )),
    {
        match limits.check_input_size(ArtifactResourceForm::Protobuf, input) {
            Err(e) => Err(e),
            Ok(admitted) => Ok(Self::decode(admitted)),
        }
    }

    /// Alias for [`Self::decode`].
    pub fn decode_from_slice(input: &[u8]) -> (r: Result<Self, DecodeError>)
        ensures
            artifact_decode_is(r, decode_artifact_model(input@)),
    {
        Self::decode(input)
    }

    /// The payload octets.
    pub fn payload(&self) -> (r: &[u8])
        ensures
            r@ == self@.payload,
    {
        self.payload.as_slice()
    }

    /// Mutable access to the payload octets.
    pub fn payload_mut(&mut self) -> (r: &mut Vec<u8>)
        ensures
            r@ == old(self)@.payload,
            final(self)@ == (ArtifactModel { payload: final(r)@, ..old(self)@ }),
    {
        &mut self.payload
    }

    /// Replace the payload octets.
    pub fn set_payload(&mut self, payload: Vec<u8>)
        ensures
            final(self)@ == (ArtifactModel { payload: payload@, ..old(self)@ }),
    {
        self.payload = payload;
    }

    /// The optional signature message.
    pub fn signature(&self) -> (r: Option<&YamlSigilSignature>)
        ensures
            match r {
                Some(s) => self@.signature == Some(s@),
                None => self@.signature is None,
            },
    {
        match &self.signature {
            Some(s) => Some(s),
            None => None,
        }
    }

    /// Mutable access to the signature message, when present.
    pub fn signature_mut(&mut self) -> (r: Option<&mut YamlSigilSignature>)
        ensures
            r is Some <==> old(self)@.signature is Some,
            r matches Some(m) ==> Some(m@) == old(self)@.signature && final(self)@ == (ArtifactModel {
                signature: Some(final(m)@),
                ..old(self)@
            }),
            r is None ==> final(self)@ == old(self)@,
    {
        match &mut self.signature {
            Some(m) => Some(m),
            None => None,
        }
    }

    /// Replace the optional signature message.
    pub fn set_signature(&mut self, signature: Option<YamlSigilSignature>)
        ensures
            final(self)@ == (ArtifactModel {
                signature: opt_owned_sig_view(signature),
                ..old(self)@
            }),
    {
        self.signature = signature;
    }

    /// Remove and return the optional signature message.
    pub fn take_signature(&mut self) -> (r: Option<YamlSigilSignature>)
        ensures
            opt_owned_sig_view(r) == old(self)@.signature,
            final(self)@ == (ArtifactModel { signature: None, ..old(self)@ }),
    {
        let taken = match &self.signature {
            Some(_) => self.signature.take(),
            None => None,
        };
        taken
    }

    /// Whether this artifact or its signature retained unknown fields.
    pub fn has_unknown_fields(&self) -> (r: bool)
        ensures
            r == (self@.unknown.len() > 0 || (self@.signature matches Some(s) && s.unknown.len()
                > 0)),
    {
        if self.unknown_fields.len() > 0 {
            return true;
        }
        match &self.signature {
            Some(s) => s.has_unknown_fields(),
            None => false,
        }
    }

    /// Discard unknown fields from the artifact and its signature.
    pub fn discard_unknown_fields(&mut self)
        ensures
            final(self)@ == (ArtifactModel {
                unknown: Seq::empty(),
                signature: match old(self)@.signature {
                    Some(s) => Some(SigModel { unknown: Seq::empty(), ..s }),
                    None => None,
                },
                ..old(self)@
            }),
    {
        self.unknown_fields = Vec::new();
        assert(self.unknown_fields@ =~= Seq::<u8>::empty());
        let sig = self.signature.take();
        self.signature = match sig {
            Some(mut s) => {
                s.discard_unknown_fields();
                Some(s)
            },
            None => None,
        };
    }

    /// Exact wire size, or `None` when it exceeds `u64`.
    fn raw_size(&self) -> (r: Option<u64>)
        ensures
            r matches Some(n) ==> n == artifact_wire(self@).len(),
            r is None ==> artifact_wire(self@).len() > u64::MAX,
    {
        let ghost m = self@;
        let ghost payload_len: int = if m.payload.len() > 0 {
            len_field_bytes(0x0a, m.payload).len() as int
        } else {
            0
        };
        let ghost sig_len: int = match m.signature {
            Some(sm) => len_field_bytes(0x12, sig_wire(sm)).len() as int,
            None => 0,
        };
        assert(artifact_wire(m).len() == payload_len + sig_len + m.unknown.len());
        let payload_part: Option<u64> = if self.payload.len() > 0 {
            ld_field_size(self.payload.len())
        } else {
            Some(0)
        };
        assert(payload_part matches Some(x) ==> x == payload_len);
        assert(payload_part is None ==> payload_len > u64::MAX);
        let sig_part: Option<u64> = match &self.signature {
            Some(s) => match s.raw_size() {
                Some(n) => ld_field_size_u64(n),
                None => None,
            },
            None => Some(0),
        };
        assert(sig_part matches Some(x) ==> x == sig_len);
        assert(sig_part is None ==> sig_len > u64::MAX);
        let a = add_size(payload_part, sig_part);
        assert(a matches Some(x) ==> x == payload_len + sig_len);
        assert(a is None ==> payload_len + sig_len > u64::MAX);
        let u = unknown_size(&self.unknown_fields);
        assert(m.unknown.len() == self.unknown_fields.len());
        let r = add_size(a, u);
        assert(r matches Some(x) ==> x == payload_len + sig_len + m.unknown.len());
        r
    }

    /// Append the canonical wire form.
    pub(crate) fn write_wire(&self, destination: &mut Vec<u8>)
        requires
            artifact_wire(self@).len() <= u64::MAX,
        ensures
            final(destination)@ == old(destination)@ + artifact_wire(self@),
    {
        let ghost start = destination@;
        if self.payload.len() > 0 {
            crate::proto_outer::push_len_field(destination, 0x0a, self.payload.as_slice());
        }
        match &self.signature {
            Some(s) => {
                let n = match s.raw_size() {
                    Some(n) => n,
                    None => 0,
                };
                destination.push(0x12);
                push_varint(destination, n);
                s.write_wire(destination);
            },
            None => {},
        }
        append_bytes(destination, self.unknown_fields.as_slice());
        assert(destination@ =~= start + artifact_wire(self@));
    }

    /// The encoded protobuf size.
    pub fn encoded_len(&self) -> (r: Result<usize, EncodeError>)
        ensures
            encoded_len_is(r, artifact_wire(self@)),
    {
        match self.raw_size() {
            None => Err(EncodeError::message_too_large()),
            Some(n) => {
                if n > MAX_MESSAGE_BYTES {
                    Err(EncodeError::message_too_large())
                } else {
                    check_encoded_message_size(n as usize)
                }
            },
        }
    }

    /// Encode into a new byte vector.
    pub fn encode_to_vec(&self) -> (r: Result<Vec<u8>, EncodeError>)
        ensures
            encoded_vec_is(r, artifact_wire(self@)),
    {
        match self.encoded_len() {
            Err(e) => Err(e),
            Ok(_) => {
                let mut out: Vec<u8> = Vec::new();
                self.write_wire(&mut out);
                assert(out@ =~= artifact_wire(self@));
                Ok(out)
            },
        }
    }

    /// Encode into a new byte vector after applying an explicit output policy.
    pub fn encode_to_vec_with_resource_limits(&self, limits: &ArtifactResourceLimits) -> (r: Result<
        Result<Vec<u8>, EncodeError>,
        ArtifactResourceError,
    >)
        ensures
            resource_encoded_vec_is(r, artifact_wire(self@), limits@),
    {
        let n = match self.raw_size() {
            Some(n) => n,
            None => return Err(limits.size_computation_overflow(ArtifactResourceForm::Protobuf)),
        };
        if n > usize::MAX as u64 {
            return Err(limits.size_computation_overflow(ArtifactResourceForm::Protobuf));
        }
        match limits.check_output_size(ArtifactResourceForm::Protobuf, n as usize) {
            Err(e) => return Err(e),
            Ok(_) => {},
        }
        match check_encoded_message_size(n as usize) {
            Err(e) => Ok(Err(e)),
            Ok(_) => {
                let mut out: Vec<u8> = Vec::new();
                self.write_wire(&mut out);
                assert(out@ =~= artifact_wire(self@));
                Ok(Ok(out))
            },
        }
    }

    /// Append the encoded message; on error `destination` is unchanged.
    pub fn encode_into(&self, destination: &mut Vec<u8>) -> (r: Result<(), EncodeError>)
        ensures
            artifact_wire(self@).len() <= MAX_MESSAGE_BYTES ==> r is Ok && final(destination)@
                == old(destination)@ + artifact_wire(self@),
            artifact_wire(self@).len() > MAX_MESSAGE_BYTES ==> (r matches Err(e) && e@
                == EncodeErrorKind::MessageTooLarge) && final(destination)@ == old(destination)@,
    {
        match self.encoded_len() {
            Err(e) => Err(e),
            Ok(_) => {
                self.write_wire(destination);
                Ok(())
            },
        }
    }

    /// Append after applying an explicit output policy; the artifact size
    /// excludes bytes already in `destination`. On error `destination` is
    /// unchanged.
    pub fn encode_into_with_resource_limits(
        &self,
        destination: &mut Vec<u8>,
        limits: &ArtifactResourceLimits,
    ) -> (r: Result<Result<(), EncodeError>, ArtifactResourceError>)
        ensures
            ({
                let wire = artifact_wire(self@);
                let n = wire.len();
                &&& n > usize::MAX ==> (r matches Err(e) && e@ == error_facts(
                    ArtifactResourceErrorKind::SizeComputationOverflow,
                    ArtifactResourceForm::Protobuf,
                    limits@,
                    None,
                ))
                &&& n <= usize::MAX && exceeds(limits@, n as int) ==> (r matches Err(e) && e@
                    == error_facts(
                    ArtifactResourceErrorKind::OutputArtifactTooLarge,
                    ArtifactResourceForm::Protobuf,
                    limits@,
                    Some(n as usize),
                ))
                &&& n <= usize::MAX && !exceeds(limits@, n as int) && n > MAX_MESSAGE_BYTES ==> (r matches Ok(
                    Err(e),
                ) && e@ == EncodeErrorKind::MessageTooLarge)
                &&& n <= usize::MAX && !exceeds(limits@, n as int) && n <= MAX_MESSAGE_BYTES ==> r
                    == Ok::<Result<(), EncodeError>, ArtifactResourceError>(
                    Ok::<(), EncodeError>(()),
                )
                &&& (r matches Ok(Ok(()))) ==> final(destination)@ == old(destination)@ + wire
                &&& !(r matches Ok(Ok(()))) ==> final(destination)@ == old(destination)@
            }),
    {
        let n = match self.raw_size() {
            Some(n) => n,
            None => return Err(limits.size_computation_overflow(ArtifactResourceForm::Protobuf)),
        };
        if n > usize::MAX as u64 {
            return Err(limits.size_computation_overflow(ArtifactResourceForm::Protobuf));
        }
        match limits.check_output_size(ArtifactResourceForm::Protobuf, n as usize) {
            Err(e) => return Err(e),
            Ok(_) => {},
        }
        match check_encoded_message_size(n as usize) {
            Err(e) => Ok(Err(e)),
            Ok(_) => {
                self.write_wire(destination);
                Ok(Ok(()))
            },
        }
    }
}

impl<'a> SignedYamlArtifactRef<'a> {
    /// Decode a borrowed artifact view without copying byte fields.
    pub fn decode(input: &'a [u8]) -> (r: Result<Self, DecodeError>)
        ensures
            match r {
                Ok(v) => decode_artifact_view_model(input@) == Ok::<ArtifactModel, DecodeErrorKind>(
                    v@,
                ) && decode_artifact_model(input@) == Ok::<ArtifactModel, DecodeErrorKind>(
                    v.owned_view(),
                ),
                Err(e) => decode_artifact_view_model(input@) == Err::<ArtifactModel, DecodeErrorKind>(
                    e@,
                ) && decode_artifact_model(input@) == Err::<ArtifactModel, DecodeErrorKind>(e@),
            },
    {
        if input.len() as u64 > MAX_MESSAGE_BYTES {
            return Err(DecodeError::new(DecodeErrorKind::MessageTooLarge));
        }
        match scan_artifact(input, RECURSION_LIMIT) {
            Ok(view) => Ok(view),
            Err(k) => Err(DecodeError::new(k)),
        }
    }

    /// Decode a borrowed view after applying an explicit input policy.
    pub fn decode_with_resource_limits(input: &'a [u8], limits: &ArtifactResourceLimits) -> (r:
        Result<Result<Self, DecodeError>, ArtifactResourceError>)
        ensures
            exceeds(limits@, input@.len() as int) ==> (r matches Err(e) && e@ == error_facts(
                ArtifactResourceErrorKind::InputArtifactTooLarge,
                ArtifactResourceForm::Protobuf,
                limits@,
                Some(input@.len() as usize),
            )),
            !exceeds(limits@, input@.len() as int) ==> (r matches Ok(d) && match d {
                Ok(v) => decode_artifact_view_model(input@) == Ok::<ArtifactModel, DecodeErrorKind>(
                    v@,
                ) && decode_artifact_model(input@) == Ok::<ArtifactModel, DecodeErrorKind>(
                    v.owned_view(),
                ),
                Err(e) => decode_artifact_view_model(input@) == Err::<ArtifactModel, DecodeErrorKind>(
                    e@,
                ) && decode_artifact_model(input@) == Err::<ArtifactModel, DecodeErrorKind>(e@),
            }),
    {
        match limits.check_input_size(ArtifactResourceForm::Protobuf, input) {
            Err(e) => Err(e),
            Ok(admitted) => Ok(Self::decode(admitted)),
        }
    }

    /// Alias for [`Self::decode`].
    pub fn decode_from_slice(input: &'a [u8]) -> (r: Result<Self, DecodeError>)
        ensures
            match r {
                Ok(v) => decode_artifact_view_model(input@) == Ok::<ArtifactModel, DecodeErrorKind>(
                    v@,
                ) && decode_artifact_model(input@) == Ok::<ArtifactModel, DecodeErrorKind>(
                    v.owned_view(),
                ),
                Err(e) => decode_artifact_view_model(input@) == Err::<ArtifactModel, DecodeErrorKind>(
                    e@,
                ) && decode_artifact_model(input@) == Err::<ArtifactModel, DecodeErrorKind>(e@),
            },
    {
        Self::decode(input)
    }

    /// The payload octets borrowed from the input.
    pub fn payload(&self) -> (r: &'a [u8])
        ensures
            r@ == self@.payload,
    {
        self.payload
    }

    /// The optional borrowed signature message.
    pub fn signature(&self) -> (r: Option<&YamlSigilSignatureRef<'a>>)
        ensures
            match r {
                Some(s) => self@.signature == Some(s@),
                None => self@.signature is None,
            },
    {
        match &self.signature {
            Some(s) => Some(s),
            None => None,
        }
    }

    /// Whether this artifact or its signature retained unknown fields.
    pub fn has_unknown_fields(&self) -> (r: bool)
        ensures
            r == (self@.unknown.len() > 0 || (self@.signature matches Some(s) && s.unknown.len()
                > 0)),
    {
        let owned = self.to_raw_message();
        owned.has_unknown_fields()
    }

    /// Copy the borrowed fields, unknown fields as they occur in the input.
    fn to_raw_message(&self) -> (r: SignedYamlArtifact)
        ensures
            r@ == self@,
    {
        let signature = match &self.signature {
            Some(s) => Some(s.to_raw_message()),
            None => None,
        };
        let mut unknown: Vec<u8> = Vec::new();
        let mut i: usize = 0;
        while i < self.unknown.len()
            invariant
                i <= self.unknown@.len(),
                unknown@ == concat_all(slice_views(self.unknown@.subrange(0, i as int))),
            decreases self.unknown.len() - i,
        {
            let ghost prefix = self.unknown@.subrange(0, i as int);
            assert(self.unknown@.subrange(0, i + 1) =~= prefix.push(self.unknown@[i as int]));
            proof {
                lemma_slice_views_push(prefix, self.unknown@[i as int]);
            }
            append_bytes(&mut unknown, self.unknown[i]);
            i = i + 1;
        }
        assert(self.unknown@.subrange(0, i as int) =~= self.unknown@);
        SignedYamlArtifact { payload: slice_to_vec(self.payload), signature, unknown_fields: unknown }
    }

    /// Copy the borrowed fields into an owned message, which keeps the
    /// unknown fields in canonical form.
    fn to_owned_message(&self) -> (r: SignedYamlArtifact)
        ensures
            r@ == self.owned_view(),
    {
        let signature = match &self.signature {
            Some(s) => Some(s.to_owned_message()),
            None => None,
        };
        SignedYamlArtifact {
            payload: slice_to_vec(self.payload),
            signature,
            unknown_fields: slice_to_vec(self.canonical_unknown.as_slice()),
        }
    }

    /// Copy the borrowed fields into an owned message, which keeps the
    /// unknown fields in canonical form.
    pub fn to_owned(&self) -> (r: Result<SignedYamlArtifact, DecodeError>)
        ensures
            r matches Ok(m) && m@ == self.owned_view(),
    {
        Ok(self.to_owned_message())
    }

    /// The encoded protobuf size.
    pub fn encoded_len(&self) -> (r: Result<usize, EncodeError>)
        ensures
            encoded_len_is(r, artifact_wire(self@)),
    {
        self.to_raw_message().encoded_len()
    }

    /// Re-encode the borrowed view into a new byte vector.
    pub fn encode_to_vec(&self) -> (r: Result<Vec<u8>, EncodeError>)
        ensures
            encoded_vec_is(r, artifact_wire(self@)),
    {
        self.to_raw_message().encode_to_vec()
    }

    /// Re-encode after applying an explicit output policy.
    pub fn encode_to_vec_with_resource_limits(&self, limits: &ArtifactResourceLimits) -> (r: Result<
        Result<Vec<u8>, EncodeError>,
        ArtifactResourceError,
    >)
        ensures
            resource_encoded_vec_is(r, artifact_wire(self@), limits@),
    {
        self.to_raw_message().encode_to_vec_with_resource_limits(limits)
    }

    /// Append the re-encoded view; on error `destination` is unchanged.
    pub fn encode_into(&self, destination: &mut Vec<u8>) -> (r: Result<(), EncodeError>)
        ensures
            artifact_wire(self@).len() <= MAX_MESSAGE_BYTES ==> r is Ok && final(destination)@
                == old(destination)@ + artifact_wire(self@),
            artifact_wire(self@).len() > MAX_MESSAGE_BYTES ==> (r matches Err(e) && e@
                == EncodeErrorKind::MessageTooLarge) && final(destination)@ == old(destination)@,
    {
        self.to_raw_message().encode_into(destination)
    }

    /// Append after applying an explicit output policy; on error
    /// `destination` is unchanged.
    pub fn encode_into_with_resource_limits(
        &self,
        destination: &mut Vec<u8>,
        limits: &ArtifactResourceLimits,
    ) -> (r: Result<Result<(), EncodeError>, ArtifactResourceError>)
        ensures
            ({
                let wire = artifact_wire(self@);
                let n = wire.len();
                &&& n > usize::MAX ==> (r matches Err(e) && e@ == error_facts(
                    ArtifactResourceErrorKind::SizeComputationOverflow,
                    ArtifactResourceForm::Protobuf,
                    limits@,
                    None,
                ))
                &&& n <= usize::MAX && exceeds(limits@, n as int) ==> (r matches Err(e) && e@
                    == error_facts(
                    ArtifactResourceErrorKind::OutputArtifactTooLarge,
                    ArtifactResourceForm::Protobuf,
                    limits@,
                    Some(n as usize),
                ))
                &&& n <= usize::MAX && !exceeds(limits@, n as int) && n > MAX_MESSAGE_BYTES ==> (r matches Ok(
                    Err(e),
                ) && e@ == EncodeErrorKind::MessageTooLarge)
                &&& n <= usize::MAX && !exceeds(limits@, n as int) && n <= MAX_MESSAGE_BYTES ==> r
                    == Ok::<Result<(), EncodeError>, ArtifactResourceError>(
                    Ok::<(), EncodeError>(()),
                )
                &&& (r matches Ok(Ok(()))) ==> final(destination)@ == old(destination)@ + wire
                &&& !(r matches Ok(Ok(()))) ==> final(destination)@ == old(destination)@
            }),
    {
        self.to_raw_message().encode_into_with_resource_limits(destination, limits)
    }
}


/// An `int32` enum number survives its varint encoding.
pub proof fn lemma_i32_varint_round_trip(v: i32)
    ensures
        to_i32(i32_varint(v)) == v,
        i32_varint(v) < 0x1_0000_0000_0000_0000,
{
    if v < 0 {
        let x: int = v + 0x1_0000_0000_0000_0000;
        assert(x % 0x1_0000_0000 == v + 0x1_0000_0000) by (nonlinear_arith)
            requires
                x == v + 0x1_0000_0000_0000_0000,
                -0x8000_0000 <= v < 0,
        ;
    }
}

/// Reading back a length-delimited field as the encoder wrote it.
proof fn lemma_read_ld_field(w: Seq<u8>, p: int, tag: u8, v: Seq<u8>)
    requires
        0 <= p,
        p + len_field_bytes(tag, v).len() <= w.len(),
        w.subrange(p, p + len_field_bytes(tag, v).len()) == len_field_bytes(tag, v),
        tag < 128,
        tag / 8 >= 1,
        tag % 8 == 2,
        v.len() <= usize::MAX,
    ensures
        tag_at(w, p) == Ok::<(nat, nat, int), DecodeErrorKind>(((tag / 8) as nat, 2nat, p + 1)),
        ld_at(w, p + 1) == Ok::<(int, int), DecodeErrorKind>(
            (
                p + 1 + varint_bytes(v.len()).len(),
                p + len_field_bytes(tag, v).len(),
            ),
        ),
        w.subrange(p + 1 + varint_bytes(v.len()).len(), p + len_field_bytes(tag, v).len()) == v,
{
    let f = len_field_bytes(tag, v);
    let e = varint_bytes(v.len());
    lemma_varint_bytes_len(v.len());
    crate::varint::lemma_pow128_facts(0);
    assert(w.subrange(p, p + f.len())[0] == w[p]);
    assert(w[p] == tag);
    assert(read_varint_from(w, p, 0) == Some((tag as nat, p + 1)));
    assert(w.subrange(p + 1, p + 1 + e.len()) =~= e) by {
        assert forall|j: int| 0 <= j < e.len() implies w.subrange(p + 1, p + 1 + e.len())[j]
            == e[j] by {
            assert(w.subrange(p, p + f.len())[1 + j] == f[1 + j]);
        }
    }
    crate::varint::lemma_read_varint_bytes(w, p + 1, v.len(), 0);
    assert(w.subrange(p + 1 + e.len(), p + f.len()) =~= v) by {
        assert forall|j: int| 0 <= j < v.len() implies w.subrange(
            p + 1 + e.len(),
            p + f.len(),
        )[j] == v[j] by {
            assert(w.subrange(p, p + f.len())[1 + e.len() + j] == f[1 + e.len() + j]);
        }
    }
}

/// Scanning the canonical encoding of a signature message with no unknown
/// fields gives the message back, at any nesting depth.
#[verifier::rlimit(100)]
#[verifier::spinoff_prover]
proof fn lemma_sig_scan_round_trip(m: SigModel, d: nat)
    requires
        m.unknown.len() == 0,
        m.keyid matches Some(k) ==> valid_utf8(k),
        sig_wire(m).len() <= MAX_MESSAGE_BYTES,
    ensures
        sig_scan(sig_wire(m), 0, empty_sig(), d, true) == Ok::<SigModel, DecodeErrorKind>(m),
{
    let w = sig_wire(m);
    let pa: Seq<u8> = if m.alg != 0 {
        seq![0x08u8] + varint_bytes(i32_varint(m.alg))
    } else {
        Seq::<u8>::empty()
    };
    let pk: Seq<u8> = match m.keyid {
        Some(k) => len_field_bytes(0x12, k),
        None => Seq::<u8>::empty(),
    };
    let ps: Seq<u8> = if m.signature.len() > 0 {
        len_field_bytes(0x1a, m.signature)
    } else {
        Seq::<u8>::empty()
    };
    assert(w =~= pa + pk + ps);
    let p1 = pa.len() as int;
    let p2 = p1 + pk.len();
    let p3 = p2 + ps.len();
    let s0 = empty_sig();
    let s1 = SigModel { alg: m.alg, keyid: None, signature: Seq::empty(), unknown: Seq::empty() };
    let s2 = SigModel { alg: m.alg, keyid: m.keyid, signature: Seq::empty(), unknown: Seq::empty() };
    let s3 = SigModel {
        alg: m.alg,
        keyid: m.keyid,
        signature: m.signature,
        unknown: Seq::empty(),
    };
    assert(m.unknown =~= Seq::<u8>::empty());
    assert(s3 == m);
    // The signature field.
    assert(sig_scan(w, p3, s3, d, true) == Ok::<SigModel, DecodeErrorKind>(s3));
    if m.signature.len() > 0 {
        assert(w.subrange(p2, p3) =~= ps);
        lemma_read_ld_field(w, p2, 0x1a, m.signature);
        assert(sig_scan(w, p2, s2, d, true) == sig_scan(w, p3, s3, d, true));
    } else {
        assert(m.signature =~= Seq::<u8>::empty());
        assert(s2 == s3);
    }
    // The key identifier field.
    match m.keyid {
        Some(k) => {
            assert(w.subrange(p1, p2) =~= pk);
            lemma_read_ld_field(w, p1, 0x12, k);
            assert(sig_scan(w, p1, s1, d, true) == sig_scan(w, p2, s2, d, true));
        },
        None => {
            assert(s1 == s2);
        },
    }
    // The algorithm field.
    if m.alg != 0 {
        let e = varint_bytes(i32_varint(m.alg));
        lemma_i32_varint_round_trip(m.alg);
        lemma_varint_bytes_len(i32_varint(m.alg));
        crate::varint::lemma_pow128_facts(0);
        assert(w[0] == 0x08);
        assert(read_varint_from(w, 0, 0) == Some((8nat, 1int)));
        assert(tag_at(w, 0) == Ok::<(nat, nat, int), DecodeErrorKind>((1nat, 0nat, 1int)));
        assert(w.subrange(1, 1 + e.len() as int) =~= e);
        crate::varint::lemma_read_varint_bytes(w, 1, i32_varint(m.alg), 0);
        assert(varint_at(w, 1) == Ok::<(nat, int), DecodeErrorKind>(
            (i32_varint(m.alg), p1),
        ));
        assert(sig_scan(w, 0, s0, d, true) == sig_scan(w, p1, s1, d, true));
    } else {
        assert(s0 == s1);
    }
}

/// Decoding the canonical encoding of a signature message with no unknown
/// fields and a well-formed UTF-8 key identifier gives the message back.
pub proof fn lemma_signature_round_trip(m: SigModel)
    requires
        m.unknown.len() == 0,
        m.keyid matches Some(k) ==> valid_utf8(k),
        sig_wire(m).len() <= MAX_MESSAGE_BYTES,
    ensures
        decode_signature_model(sig_wire(m)) == Ok::<SigModel, DecodeErrorKind>(m),
{
    lemma_sig_scan_round_trip(m, RECURSION_LIMIT as nat);
}

/// Decoding the canonical encoding of an artifact message with no unknown
/// fields, whose signature (when present) has no unknown fields and a
/// well-formed UTF-8 key identifier, gives the message back.
#[verifier::rlimit(50)]
#[verifier::spinoff_prover]
pub proof fn lemma_artifact_round_trip(a: ArtifactModel)
    requires
        a.unknown.len() == 0,
        a.signature matches Some(s) ==> s.unknown.len() == 0 && (s.keyid matches Some(k)
            ==> valid_utf8(k)),
        artifact_wire(a).len() <= MAX_MESSAGE_BYTES,
    ensures
        decode_artifact_model(artifact_wire(a)) == Ok::<ArtifactModel, DecodeErrorKind>(a),
{
    let w = artifact_wire(a);
    let d = RECURSION_LIMIT as nat;
    let pp: Seq<u8> = if a.payload.len() > 0 {
        len_field_bytes(0x0a, a.payload)
    } else {
        Seq::<u8>::empty()
    };
    let ps: Seq<u8> = match a.signature {
        Some(s) => len_field_bytes(0x12, sig_wire(s)),
        None => Seq::<u8>::empty(),
    };
    assert(a.unknown =~= Seq::<u8>::empty());
    assert(w =~= pp + ps);
    let p1 = pp.len() as int;
    let p2 = p1 + ps.len();
    let s0 = empty_artifact();
    let s1 = ArtifactModel { payload: a.payload, signature: None, unknown: Seq::empty() };
    let s2 = ArtifactModel { payload: a.payload, signature: a.signature, unknown: Seq::empty() };
    assert(s2 == a);
    assert(artifact_scan(w, p2, s2, d, true) == Ok::<ArtifactModel, DecodeErrorKind>(s2));
    // The signature field.
    match a.signature {
        Some(s) => {
            let sw = sig_wire(s);
            assert(w.subrange(p1, p2) =~= ps);
            lemma_read_ld_field(w, p1, 0x12, sw);
            lemma_sig_scan_round_trip(s, (d - 1) as nat);
            assert(artifact_scan(w, p1, s1, d, true) == artifact_scan(w, p2, s2, d, true));
        },
        None => {
            assert(s1 == s2);
        },
    }
    // The payload field.
    if a.payload.len() > 0 {
        assert(w.subrange(0, p1) =~= pp);
        lemma_read_ld_field(w, 0, 0x0a, a.payload);
        assert(artifact_scan(w, 0, s0, d, true) == artifact_scan(w, p1, s1, d, true));
    } else {
        assert(a.payload =~= Seq::<u8>::empty());
        assert(s0 == s1);
    }
}

} // verus!
