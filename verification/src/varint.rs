//! Protobuf base-128 varints and field tags.

use vstd::prelude::*;

verus! {

/// `128^k`.
pub open spec fn pow128(k: nat) -> nat
    decreases k,
{
    if k == 0 {
        1
    } else {
        128 * pow128((k - 1) as nat)
    }
}

/// `2^64`.
pub open spec fn two_pow_64() -> nat {
    0x1_0000_0000_0000_0000
}

/// The canonical varint encoding of `v`: seven bits per byte, least
/// significant group first, continuation bit on all but the last byte.
pub open spec fn varint_bytes(v: nat) -> Seq<u8>
    decreases v,
{
    if v < 128 {
        seq![v as u8]
    } else {
        seq![(v % 128 + 128) as u8] + varint_bytes(v / 128)
    }
}

/// Read the varint starting at `i`, where `k` bytes of the same varint
/// precede `i`. The tenth byte (`k == 9`) may only hold bit 63.
/// Returns the value contributed from `i` on (scaled to `i`) and the
/// index just past the varint.
pub open spec fn read_varint_from(b: Seq<u8>, i: int, k: nat) -> Option<(nat, int)>
    decreases b.len() - i,
{
    if i < 0 || i >= b.len() {
        None
    } else if k >= 9 {
        if b[i] > 1 {
            None
        } else {
            Some((b[i] as nat, i + 1))
        }
    } else if b[i] < 128 {
        Some((b[i] as nat, i + 1))
    } else {
        match read_varint_from(b, i + 1, k + 1) {
            Some((v, n)) => Some(((b[i] - 128) as nat + 128 * v, n)),
            None => None,
        }
    }
}

/// Read the varint starting at `i`.
pub open spec fn read_varint_at(b: Seq<u8>, i: int) -> Option<(nat, int)> {
    read_varint_from(b, i, 0)
}

/// Largest protobuf field number.
pub const MAX_PROTOBUF_FIELD_NUMBER: u64 = 536_870_911;

/// Read a field tag at `i`: field number, wire type, and next index.
pub open spec fn read_tag_at(b: Seq<u8>, i: int) -> Option<(nat, nat, int)> {
    match read_varint_at(b, i) {
        Some((t, n)) => {
            let field = t / 8;
            if 1 <= field && field <= MAX_PROTOBUF_FIELD_NUMBER {
                Some((field, t % 8, n))
            } else {
                None
            }
        },
        None => None,
    }
}

/// Read a length-delimited length at `i` (it must fit in `usize`).
pub open spec fn read_length_at(b: Seq<u8>, i: int) -> Option<(nat, int)> {
    match read_varint_at(b, i) {
        Some((l, n)) => if l <= usize::MAX {
            Some((l, n))
        } else {
            None
        },
        None => None,
    }
}

/// Index just past the value of an unknown field of wire type `wt` at `i`.
pub open spec fn skip_field_at(b: Seq<u8>, wt: nat, i: int) -> Option<int> {
    if wt == 0 {
        match read_varint_at(b, i) {
            Some((_, n)) => Some(n),
            None => None,
        }
    } else if wt == 1 {
        if i + 8 <= b.len() {
            Some(i + 8)
        } else {
            None
        }
    } else if wt == 2 {
        match read_length_at(b, i) {
            Some((l, n)) => if n + l <= b.len() {
                Some(n + l)
            } else {
                None
            },
            None => None,
        }
    } else if wt == 5 {
        if i + 4 <= b.len() {
            Some(i + 4)
        } else {
            None
        }
    } else {
        None
    }
}

/// Facts about powers of 128 up to the tenth varint byte.
pub proof fn lemma_pow128_facts(k: nat)
    requires
        k <= 9,
    ensures
        pow128(k) >= 1,
        k < 9 ==> pow128(k + 1) == 128 * pow128(k),
        k <= 8 ==> pow128(k) <= 0x100_0000_0000_0000,
        k == 9 ==> pow128(k) == 0x8000_0000_0000_0000,
{
    reveal_with_fuel(pow128, 10);
    assert(pow128(0) == 1);
    assert(pow128(1) == 128);
    assert(pow128(2) == 16384);
    assert(pow128(3) == 2097152);
    assert(pow128(4) == 268435456);
    assert(pow128(5) == 34359738368);
    assert(pow128(6) == 4398046511104);
    assert(pow128(7) == 562949953421312);
    assert(pow128(8) == 72057594037927936);
    assert(pow128(9) == 9223372036854775808);
}

/// A successful read consumes at least one byte and stays within `b`.
pub proof fn lemma_read_varint_progress(b: Seq<u8>, i: int, k: nat)
    ensures
        read_varint_from(b, i, k) matches Some((_, n)) ==> i < n <= b.len(),
    decreases b.len() - i,
{
    if 0 <= i < b.len() && k < 9 && b[i] >= 128 {
        lemma_read_varint_progress(b, i + 1, k + 1);
    }
}

/// Reading the canonical encoding of `v` gives back `v`.
pub proof fn lemma_read_varint_bytes(b: Seq<u8>, i: int, v: nat, k: nat)
    requires
        0 <= i,
        i + varint_bytes(v).len() <= b.len(),
        b.subrange(i, i + varint_bytes(v).len()) == varint_bytes(v),
        k <= 9,
        v * pow128(k) < two_pow_64(),
    ensures
        read_varint_from(b, i, k) == Some((v, i + varint_bytes(v).len())),
    decreases v,
{
    let e = varint_bytes(v);
    assert(b[i] == e[0]) by {
        assert(b.subrange(i, i + e.len())[0] == b[i]);
    }
    lemma_pow128_facts(k);
    if k >= 9 {
        assert(v * 0x8000_0000_0000_0000 < 0x1_0000_0000_0000_0000);
        assert(v <= 1) by (nonlinear_arith)
            requires
                v * 0x8000_0000_0000_0000 < 0x1_0000_0000_0000_0000,
        ;
    } else if v < 128 {
    } else {
        let w = v / 128;
        let rest = varint_bytes(w);
        assert(e == seq![(v % 128 + 128) as u8] + rest);
        assert(b.subrange(i + 1, i + 1 + rest.len()) == rest) by {
            assert(b.subrange(i + 1, i + 1 + rest.len()) =~= b.subrange(i, i + e.len()).subrange(
                1,
                e.len() as int,
            ));
            assert(e.subrange(1, e.len() as int) =~= rest);
        }
        let pk = pow128(k);
        assert(w * pow128(k + 1) < two_pow_64()) by (nonlinear_arith)
            requires
                pow128(k + 1) == 128 * pk,
                w == v / 128,
                v * pk < two_pow_64(),
                pk >= 1,
        ;
        lemma_read_varint_bytes(b, i + 1, w, k + 1);
        assert((v % 128 + 128) as u8 >= 128);
        assert(((v % 128 + 128) as u8 - 128) as nat + 128 * w == v);
    }
}

/// The encoded length of a varint is between one and ten bytes.
pub proof fn lemma_varint_bytes_len(v: nat)
    ensures
        1 <= varint_bytes(v).len(),
        v < two_pow_64() ==> varint_bytes(v).len() <= 10,
    decreases v,
{
    if v >= 128 {
        lemma_varint_bytes_len(v / 128);
        lemma_pow128_facts(0);
        if v < two_pow_64() {
            lemma_varint_len_bound(v, 0);
        }
    }
}

/// A value below `2^(64 - 7k)` needs at most `10 - k` bytes.
proof fn lemma_varint_len_bound(v: nat, k: nat)
    requires
        k <= 9,
        v * pow128(k) < two_pow_64(),
    ensures
        varint_bytes(v).len() <= 10 - k,
    decreases v,
{
    lemma_pow128_facts(k);
    if v >= 128 {
        if k >= 9 {
            assert(v * 0x8000_0000_0000_0000 >= 128 * 0x8000_0000_0000_0000) by (nonlinear_arith)
                requires
                    v >= 128,
            ;
        } else {
            let pk = pow128(k);
            assert((v / 128) * pow128(k + 1) < two_pow_64()) by (nonlinear_arith)
                requires
                    pow128(k + 1) == 128 * pk,
                    v * pk < two_pow_64(),
                    pk >= 1,
            ;
            lemma_varint_len_bound(v / 128, k + 1);
        }
    }
}

/// Append the canonical varint encoding of `value`.
pub fn push_varint(destination: &mut Vec<u8>, value: u64)
    ensures
        final(destination)@ == old(destination)@ + varint_bytes(value as nat),
{
    let mut v = value;
    while v >= 0x80
        invariant
            destination@ + varint_bytes(v as nat) == old(destination)@ + varint_bytes(value as nat),
        decreases v,
    {
        let ghost before = destination@;
        let byte: u8 = ((v % 128) as u8) + 128;
        destination.push(byte);
        assert(varint_bytes(v as nat) == seq![byte] + varint_bytes((v / 128) as nat));
        assert(destination@ + varint_bytes((v / 128) as nat) =~= before + varint_bytes(v as nat));
        v = v / 128;
    }
    let ghost before = destination@;
    destination.push(v as u8);
    assert(destination@ =~= before + varint_bytes(v as nat));
}

/// Number of bytes in the varint encoding of `value`.
pub fn varint_len(value: u64) -> (r: u64)
    ensures
        r == varint_bytes(value as nat).len(),
        1 <= r <= 10,
{
    proof {
        lemma_varint_bytes_len(value as nat);
    }
    let mut v = value;
    let mut length: u64 = 1;
    while v >= 0x80
        invariant
            length + varint_bytes(v as nat).len() == 1 + varint_bytes(value as nat).len(),
            varint_bytes(value as nat).len() <= 10,
            length >= 1,
        decreases v,
    {
        assert(varint_bytes(v as nat).len() == 1 + varint_bytes((v / 128) as nat).len());
        proof {
            lemma_varint_bytes_len((v / 128) as nat);
        }
        v = v / 128;
        length = length + 1;
    }
    length
}

/// Read the varint starting at `index`.
pub fn read_varint(bytes: &[u8], index: usize) -> (r: Option<(u64, usize)>)
    ensures
        r matches Some((v, n)) ==> read_varint_at(bytes@, index as int) == Some((v as nat, n as int)),
        r is None ==> read_varint_at(bytes@, index as int) is None,
{
    let ghost b = bytes@;
    let ghost start = index as int;
    let mut result: u64 = 0;
    let mut mult: u64 = 1;
    let mut k: usize = 0;
    let mut idx = index;
    proof {
        lemma_pow128_facts(0);
    }
    while idx < bytes.len()
        invariant
            k <= 9,
            mult == pow128(k as nat),
            result < mult,
            read_varint_at(b, start) == match read_varint_from(b, idx as int, k as nat) {
                Some((v, n)) => Some(((result as nat + mult * v) as nat, n)),
                None => None::<(nat, int)>,
            },
            b == bytes@,
            start == index as int,
        decreases bytes.len() - idx,
    {
        proof {
            lemma_pow128_facts(k as nat);
        }
        let byte = bytes[idx];
        if k == 9 {
            assert(read_varint_from(b, idx as int, 9) == if byte > 1 {
                None::<(nat, int)>
            } else {
                Some((byte as nat, idx + 1))
            });
            if byte > 1 {
                return None;
            }
            assert(mult * (byte as u64) <= mult) by (nonlinear_arith)
                requires
                    byte <= 1,
            ;
            let value = result + mult * (byte as u64);
            return Some((value, idx + 1));
        }
        assert(read_varint_from(b, idx as int, k as nat) == if byte < 128 {
            Some((byte as nat, idx + 1))
        } else {
            match read_varint_from(b, idx + 1, (k + 1) as nat) {
                Some((v, n)) => Some(((byte - 128) as nat + 128 * v, n)),
                None => None::<(nat, int)>,
            }
        });
        if byte < 128 {
            assert(mult * (byte as u64) < 0x8000_0000_0000_0000) by (nonlinear_arith)
                requires
                    byte < 128,
                    mult <= 0x100_0000_0000_0000,
            ;
            let value = result + mult * (byte as u64);
            return Some((value, idx + 1));
        }
        let ghost old_result = result;
        let ghost old_mult = mult;
        assert(((byte - 128) as u64) * mult <= 127 * mult) by (nonlinear_arith)
            requires
                byte >= 128,
        ;
        result = result + ((byte - 128) as u64) * mult;
        mult = mult * 128;
        k = k + 1;
        idx = idx + 1;
        proof {
            match read_varint_from(b, idx as int, k as nat) {
                Some((v, n)) => {
                    assert(old_result + old_mult * (((byte - 128) as nat) + 128 * v) == result + mult
                        * v) by (nonlinear_arith)
                        requires
                            result == old_result + ((byte - 128) as nat) * old_mult,
                            mult == old_mult * 128,
                    ;
                },
                None => {},
            }
        }
    }
    None
}

/// Read a field tag at `index`: field number, wire type, and next index.
pub fn read_tag(bytes: &[u8], index: usize) -> (r: Option<(u32, u32, usize)>)
    ensures
        r matches Some((f, w, n)) ==> read_tag_at(bytes@, index as int) == Some(
            (f as nat, w as nat, n as int),
        ),
        r is None ==> read_tag_at(bytes@, index as int) is None,
{
    let (tag, next) = match read_varint(bytes, index) {
        Some(v) => v,
        None => return None,
    };
    let field = tag / 8;
    if field < 1 || field > MAX_PROTOBUF_FIELD_NUMBER {
        return None;
    }
    Some((field as u32, (tag % 8) as u32, next))
}

/// Read a length-delimited length at `index`.
pub fn read_length(bytes: &[u8], index: usize) -> (r: Option<(usize, usize)>)
    ensures
        r matches Some((l, n)) ==> read_length_at(bytes@, index as int) == Some(
            (l as nat, n as int),
        ),
        r is None ==> read_length_at(bytes@, index as int) is None,
{
    let (length, next) = match read_varint(bytes, index) {
        Some(v) => v,
        None => return None,
    };
    if length > usize::MAX as u64 {
        return None;
    }
    Some((length as usize, next))
}

/// Index just past the value of an unknown field of wire type `wire_type` at `index`.
pub fn skip_field(wire_type: u32, bytes: &[u8], index: usize) -> (r: Option<usize>)
    requires
        index <= bytes.len(),
    ensures
        r matches Some(n) ==> skip_field_at(bytes@, wire_type as nat, index as int) == Some(
            n as int,
        ),
        r is None ==> skip_field_at(bytes@, wire_type as nat, index as int) is None,
{
    if wire_type == 0 {
        match read_varint(bytes, index) {
            Some((_, next)) => Some(next),
            None => None,
        }
    } else if wire_type == 1 {
        if bytes.len() - index >= 8 {
            Some(index + 8)
        } else {
            None
        }
    } else if wire_type == 2 {
        let (length, next) = match read_length(bytes, index) {
            Some(v) => v,
            None => return None,
        };
        proof {
            lemma_read_varint_progress(bytes@, index as int, 0);
        }
        if length <= bytes.len() - next {
            Some(next + length)
        } else {
            None
        }
    } else if wire_type == 5 {
        if bytes.len() - index >= 4 {
            Some(index + 4)
        } else {
            None
        }
    } else {
        None
    }
}

} // verus!
