//! Protobuf wire reading with classified failures: tags, length-delimited
//! values, and skipping of unknown fields (groups included) under a nesting
//! budget.

use vstd::prelude::*;
use crate::pb_error::DecodeErrorKind;
use crate::bytes::append_bytes;
use crate::varint::{
    lemma_read_varint_progress, push_varint, read_varint, read_varint_at, varint_bytes,
};

verus! {

/// The decoder's nesting budget.
pub const RECURSION_LIMIT: u32 = 100;

/// Whether a failed varint read at `i` ran out of input (rather than
/// exceeding ten bytes).
pub open spec fn varint_truncated(b: Seq<u8>, i: int, k: nat) -> bool
    decreases b.len() - i,
{
    if i < 0 || i >= b.len() {
        true
    } else if k >= 9 || b[i] < 128 {
        false
    } else {
        varint_truncated(b, i + 1, k + 1)
    }
}

/// The failure category of an unreadable varint at `i`.
pub open spec fn varint_fault(b: Seq<u8>, i: int) -> DecodeErrorKind {
    if varint_truncated(b, i, 0) {
        DecodeErrorKind::UnexpectedEnd
    } else {
        DecodeErrorKind::InvalidVarint
    }
}

/// A varint at `i`, or its failure category.
pub open spec fn varint_at(b: Seq<u8>, i: int) -> Result<(nat, int), DecodeErrorKind> {
    match read_varint_at(b, i) {
        Some((v, n)) => Ok((v, n)),
        None => Err(varint_fault(b, i)),
    }
}

/// A field tag at `i`: field number, wire type, next index.
pub open spec fn tag_at(b: Seq<u8>, i: int) -> Result<(nat, nat, int), DecodeErrorKind> {
    match varint_at(b, i) {
        Err(k) => Err(k),
        Ok((v, n)) => if v > u32::MAX {
            Err(DecodeErrorKind::InvalidFieldNumber)
        } else if v % 8 >= 6 {
            Err(DecodeErrorKind::InvalidWireType)
        } else if v / 8 == 0 {
            Err(DecodeErrorKind::InvalidFieldNumber)
        } else {
            Ok((v / 8, v % 8, n))
        },
    }
}

/// A length-delimited value at `i`: its start and end.
pub open spec fn ld_at(b: Seq<u8>, i: int) -> Result<(int, int), DecodeErrorKind> {
    match varint_at(b, i) {
        Err(k) => Err(k),
        Ok((l, n)) => if l > usize::MAX {
            Err(DecodeErrorKind::MessageTooLarge)
        } else if n + l > b.len() {
            Err(DecodeErrorKind::UnexpectedEnd)
        } else {
            Ok((n, n + l))
        },
    }
}

/// The end of an unknown field's value of wire type `wt` starting at `i`;
/// groups are read up to their matching end tag with `depth` levels left.
pub open spec fn skip_value(b: Seq<u8>, i: int, field: nat, wt: nat, depth: nat) -> Result<
    int,
    DecodeErrorKind,
>
    decreases b.len() - i, 1int,
{
    if i < 0 || i > b.len() {
        Err(DecodeErrorKind::Other)
    } else if wt == 0 {
        match varint_at(b, i) {
            Err(k) => Err(k),
            Ok((_, n)) => Ok(n),
        }
    } else if wt == 1 {
        if i + 8 <= b.len() {
            Ok(i + 8)
        } else {
            Err(DecodeErrorKind::UnexpectedEnd)
        }
    } else if wt == 2 {
        match ld_at(b, i) {
            Err(k) => Err(k),
            Ok((_, e)) => Ok(e),
        }
    } else if wt == 5 {
        if i + 4 <= b.len() {
            Ok(i + 4)
        } else {
            Err(DecodeErrorKind::UnexpectedEnd)
        }
    } else if wt == 3 {
        if depth == 0 {
            Err(DecodeErrorKind::RecursionLimitExceeded)
        } else {
            skip_group(b, i, field, (depth - 1) as nat)
        }
    } else {
        Err(DecodeErrorKind::InvalidWireType)
    }
}

/// The end of a group body starting at `i`: nested fields up to and
/// including the end tag of group `field`.
pub open spec fn skip_group(b: Seq<u8>, i: int, field: nat, depth: nat) -> Result<
    int,
    DecodeErrorKind,
>
    decreases b.len() - i, 0int,
{
    if i < 0 || i > b.len() {
        Err(DecodeErrorKind::Other)
    } else {
        match tag_at(b, i) {
            Err(k) => Err(k),
            Ok((f, wt, n)) => if !(i < n && n <= b.len()) {
                Err(DecodeErrorKind::Other)
            } else if wt == 4 {
                if f != field {
                    Err(DecodeErrorKind::InvalidGroup)
                } else {
                    Ok(n)
                }
            } else {
                match skip_value(b, n, f, wt, depth) {
                    Err(k) => Err(k),
                    Ok(m) => if !(n <= m && m <= b.len()) {
                        Err(DecodeErrorKind::Other)
                    } else {
                        skip_group(b, m, field, depth)
                    },
                }
            },
        }
    }
}

/// The canonical re-encoding of an unknown field's value of wire type `wt`
/// starting at `i`: varints and lengths in their shortest form, fixed-width
/// values as they are, and the members of a group re-encoded in turn up to
/// its end tag.
pub open spec fn canon_value(b: Seq<u8>, i: int, field: nat, wt: nat, depth: nat) -> Seq<u8>
    decreases b.len() - i, 1int,
{
    if i < 0 || i > b.len() {
        Seq::empty()
    } else if wt == 0 {
        match varint_at(b, i) {
            Ok((v, _)) => varint_bytes(v),
            Err(_) => Seq::empty(),
        }
    } else if wt == 1 {
        b.subrange(i, i + 8)
    } else if wt == 2 {
        match ld_at(b, i) {
            Ok((s, e)) => varint_bytes((e - s) as nat) + b.subrange(s, e),
            Err(_) => Seq::empty(),
        }
    } else if wt == 5 {
        b.subrange(i, i + 4)
    } else if wt == 3 {
        if depth == 0 {
            Seq::empty()
        } else {
            canon_group(b, i, field, (depth - 1) as nat)
        }
    } else {
        Seq::empty()
    }
}

/// The canonical re-encoding of a group body starting at `i`: each member's
/// tag and value, then the end tag of group `field`.
pub open spec fn canon_group(b: Seq<u8>, i: int, field: nat, depth: nat) -> Seq<u8>
    decreases b.len() - i, 0int,
{
    if i < 0 || i > b.len() {
        Seq::empty()
    } else {
        match tag_at(b, i) {
            Err(_) => Seq::empty(),
            Ok((f, wt, n)) => if !(i < n && n <= b.len()) {
                Seq::empty()
            } else if wt == 4 {
                varint_bytes(field * 8 + 4)
            } else {
                match skip_value(b, n, f, wt, depth) {
                    Err(_) => Seq::empty(),
                    Ok(m) => if !(n <= m && m <= b.len()) {
                        Seq::empty()
                    } else {
                        varint_bytes(f * 8 + wt) + canon_value(b, n, f, wt, depth) + canon_group(
                            b,
                            m,
                            field,
                            depth,
                        )
                    },
                }
            },
        }
    }
}

/// Why a varint at `index` could not be read.
pub fn varint_fault_kind(bytes: &[u8], index: usize) -> (r: DecodeErrorKind)
    ensures
        r == varint_fault(bytes@, index as int),
{
    let mut idx = index;
    let mut k: usize = 0;
    while idx < bytes.len()
        invariant
            k <= 9,
            varint_truncated(bytes@, index as int, 0) == varint_truncated(
                bytes@,
                idx as int,
                k as nat,
            ),
        decreases bytes.len() - idx,
    {
        if k >= 9 || bytes[idx] < 128 {
            return DecodeErrorKind::InvalidVarint;
        }
        idx = idx + 1;
        k = k + 1;
    }
    DecodeErrorKind::UnexpectedEnd
}

/// A varint at `index`, or its failure category.
pub fn read_varint_checked(bytes: &[u8], index: usize) -> (r: Result<(u64, usize), DecodeErrorKind>)
    ensures
        match r {
            Ok((v, n)) => varint_at(bytes@, index as int) == Ok::<(nat, int), DecodeErrorKind>(
                (v as nat, n as int),
            ),
            Err(k) => varint_at(bytes@, index as int) == Err::<(nat, int), DecodeErrorKind>(k),
        },
        r matches Ok((_, n)) ==> index < n <= bytes.len(),
{
    proof {
        lemma_read_varint_progress(bytes@, index as int, 0);
    }
    match read_varint(bytes, index) {
        Some((v, n)) => Ok((v, n)),
        None => Err(varint_fault_kind(bytes, index)),
    }
}

/// A field tag at `index`.
pub fn read_field_tag(bytes: &[u8], index: usize) -> (r: Result<(u32, u32, usize), DecodeErrorKind>)
    ensures
        match r {
            Ok((f, w, n)) => tag_at(bytes@, index as int) == Ok::<
                (nat, nat, int),
                DecodeErrorKind,
            >((f as nat, w as nat, n as int)),
            Err(k) => tag_at(bytes@, index as int) == Err::<(nat, nat, int), DecodeErrorKind>(k),
        },
        r matches Ok((_, w, n)) ==> index < n <= bytes.len() && w < 6,
{
    let (v, n) = match read_varint_checked(bytes, index) {
        Ok(x) => x,
        Err(k) => return Err(k),
    };
    if v > 0xFFFF_FFFF {
        return Err(DecodeErrorKind::InvalidFieldNumber);
    }
    if v % 8 >= 6 {
        return Err(DecodeErrorKind::InvalidWireType);
    }
    if v / 8 == 0 {
        return Err(DecodeErrorKind::InvalidFieldNumber);
    }
    Ok(((v / 8) as u32, (v % 8) as u32, n))
}

/// A length-delimited value at `index`: start and end.
pub fn read_len_delimited(bytes: &[u8], index: usize) -> (r: Result<(usize, usize), DecodeErrorKind>)
    ensures
        match r {
            Ok((s, e)) => ld_at(bytes@, index as int) == Ok::<(int, int), DecodeErrorKind>(
                (s as int, e as int),
            ),
            Err(k) => ld_at(bytes@, index as int) == Err::<(int, int), DecodeErrorKind>(k),
        },
        r matches Ok((s, e)) ==> index < s <= e <= bytes.len(),
{
    let (l, n) = match read_varint_checked(bytes, index) {
        Ok(x) => x,
        Err(k) => return Err(k),
    };
    if l > usize::MAX as u64 {
        return Err(DecodeErrorKind::MessageTooLarge);
    }
    let l = l as usize;
    if l > bytes.len() - n {
        return Err(DecodeErrorKind::UnexpectedEnd);
    }
    Ok((n, n + l))
}

/// The end of an unknown field's value (see [`skip_value`]).
pub fn skip_field_value(bytes: &[u8], index: usize, field: u32, wire_type: u32, depth: u32) -> (r:
    Result<usize, DecodeErrorKind>)
    requires
        index <= bytes.len(),
    ensures
        match r {
            Ok(m) => skip_value(bytes@, index as int, field as nat, wire_type as nat, depth as nat)
                == Ok::<int, DecodeErrorKind>(m as int),
            Err(k) => skip_value(bytes@, index as int, field as nat, wire_type as nat, depth as nat)
                == Err::<int, DecodeErrorKind>(k),
        },
        r matches Ok(m) ==> index <= m <= bytes.len(),
    decreases bytes.len() - index, 1int,
{
    if wire_type == 0 {
        match read_varint_checked(bytes, index) {
            Err(k) => Err(k),
            Ok((_, n)) => Ok(n),
        }
    } else if wire_type == 1 {
        if bytes.len() - index >= 8 {
            Ok(index + 8)
        } else {
            Err(DecodeErrorKind::UnexpectedEnd)
        }
    } else if wire_type == 2 {
        match read_len_delimited(bytes, index) {
            Err(k) => Err(k),
            Ok((_, e)) => Ok(e),
        }
    } else if wire_type == 5 {
        if bytes.len() - index >= 4 {
            Ok(index + 4)
        } else {
            Err(DecodeErrorKind::UnexpectedEnd)
        }
    } else if wire_type == 3 {
        if depth == 0 {
            Err(DecodeErrorKind::RecursionLimitExceeded)
        } else {
            skip_group_body(bytes, index, field, depth - 1)
        }
    } else {
        Err(DecodeErrorKind::InvalidWireType)
    }
}

/// The end of a group body (see [`skip_group`]).
pub fn skip_group_body(bytes: &[u8], index: usize, field: u32, depth: u32) -> (r: Result<
    usize,
    DecodeErrorKind,
>)
    requires
        index <= bytes.len(),
    ensures
        match r {
            Ok(m) => skip_group(bytes@, index as int, field as nat, depth as nat) == Ok::<
                int,
                DecodeErrorKind,
            >(m as int),
            Err(k) => skip_group(bytes@, index as int, field as nat, depth as nat) == Err::<
                int,
                DecodeErrorKind,
            >(k),
        },
        r matches Ok(m) ==> index <= m <= bytes.len(),
    decreases bytes.len() - index, 0int,
{
    let (f, wt, n) = match read_field_tag(bytes, index) {
        Ok(x) => x,
        Err(k) => return Err(k),
    };
    if wt == 4 {
        if f != field {
            return Err(DecodeErrorKind::InvalidGroup);
        }
        return Ok(n);
    }
    let m = match skip_field_value(bytes, n, f, wt, depth) {
        Ok(m) => m,
        Err(k) => return Err(k),
    };
    skip_group_body(bytes, m, field, depth)
}

/// Skip an unknown field's value, as [`skip_field_value`] does, appending
/// its canonical re-encoding (see [`canon_value`]) to `out`.
pub fn write_canonical_value(
    bytes: &[u8],
    index: usize,
    field: u32,
    wire_type: u32,
    depth: u32,
    out: &mut Vec<u8>,
) -> (r: Result<usize, DecodeErrorKind>)
    requires
        index <= bytes.len(),
    ensures
        match r {
            Ok(m) => skip_value(bytes@, index as int, field as nat, wire_type as nat, depth as nat)
                == Ok::<int, DecodeErrorKind>(m as int) && final(out)@ == old(out)@ + canon_value(
                bytes@,
                index as int,
                field as nat,
                wire_type as nat,
                depth as nat,
            ),
            Err(k) => skip_value(bytes@, index as int, field as nat, wire_type as nat, depth as nat)
                == Err::<int, DecodeErrorKind>(k),
        },
        r matches Ok(m) ==> index <= m <= bytes.len(),
    decreases bytes.len() - index, 1int,
{
    if wire_type == 0 {
        match read_varint_checked(bytes, index) {
            Err(k) => Err(k),
            Ok((v, n)) => {
                push_varint(out, v);
                Ok(n)
            },
        }
    } else if wire_type == 1 {
        if bytes.len() - index >= 8 {
            append_bytes(out, &bytes[index..index + 8]);
            Ok(index + 8)
        } else {
            Err(DecodeErrorKind::UnexpectedEnd)
        }
    } else if wire_type == 2 {
        match read_len_delimited(bytes, index) {
            Err(k) => Err(k),
            Ok((s, e)) => {
                push_varint(out, (e - s) as u64);
                append_bytes(out, &bytes[s..e]);
                assert(old(out)@ + varint_bytes((e - s) as nat) + bytes@.subrange(s as int, e as int)
                    =~= old(out)@ + (varint_bytes((e - s) as nat) + bytes@.subrange(s as int, e as int)));
                Ok(e)
            },
        }
    } else if wire_type == 5 {
        if bytes.len() - index >= 4 {
            append_bytes(out, &bytes[index..index + 4]);
            Ok(index + 4)
        } else {
            Err(DecodeErrorKind::UnexpectedEnd)
        }
    } else if wire_type == 3 {
        if depth == 0 {
            Err(DecodeErrorKind::RecursionLimitExceeded)
        } else {
            write_canonical_group(bytes, index, field, depth - 1, out)
        }
    } else {
        Err(DecodeErrorKind::InvalidWireType)
    }
}

/// Skip a group body, as [`skip_group_body`] does, appending its canonical
/// re-encoding (see [`canon_group`]) to `out`.
pub fn write_canonical_group(bytes: &[u8], index: usize, field: u32, depth: u32, out: &mut Vec<u8>) -> (r:
    Result<usize, DecodeErrorKind>)
    requires
        index <= bytes.len(),
    ensures
        match r {
            Ok(m) => skip_group(bytes@, index as int, field as nat, depth as nat) == Ok::<
                int,
                DecodeErrorKind,
            >(m as int) && final(out)@ == old(out)@ + canon_group(
                bytes@,
                index as int,
                field as nat,
                depth as nat,
            ),
            Err(k) => skip_group(bytes@, index as int, field as nat, depth as nat) == Err::<
                int,
                DecodeErrorKind,
            >(k),
        },
        r matches Ok(m) ==> index <= m <= bytes.len(),
    decreases bytes.len() - index, 0int,
{
    let (f, wt, n) = match read_field_tag(bytes, index) {
        Ok(x) => x,
        Err(k) => return Err(k),
    };
    if wt == 4 {
        if f != field {
            return Err(DecodeErrorKind::InvalidGroup);
        }
        push_varint(out, (field as u64) * 8 + 4);
        return Ok(n);
    }
    let ghost before = out@;
    push_varint(out, (f as u64) * 8 + (wt as u64));
    let m = match write_canonical_value(bytes, n, f, wt, depth, out) {
        Ok(m) => m,
        Err(k) => return Err(k),
    };
    let ghost mid = out@;
    let r = write_canonical_group(bytes, m, field, depth, out);
    proof {
        if r is Ok {
            assert(out@ =~= before + (varint_bytes((f * 8 + wt) as nat) + canon_value(
                bytes@,
                n as int,
                f as nat,
                wt as nat,
                depth as nat,
            ) + canon_group(bytes@, m as int, field as nat, depth as nat)));
        }
    }
    r
}

} // verus!
