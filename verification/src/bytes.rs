//! Byte-sequence helpers: equality, prefixes, and UTF-8 well-formedness.

use vstd::prelude::*;
use vstd::utf8::*;

verus! {

/// Element-wise equality of two byte slices.
pub fn bytes_eq(a: &[u8], b: &[u8]) -> (r: bool)
    ensures
        r == (a@ == b@),
{
    if a.len() != b.len() {
        return false;
    }
    let mut i: usize = 0;
    while i < a.len()
        invariant
            a.len() == b.len(),
            i <= a.len(),
            forall|j: int| 0 <= j < i ==> a@[j] == b@[j],
        decreases a.len() - i,
    {
        if a[i] != b[i] {
            return false;
        }
        i = i + 1;
    }
    assert(a@ =~= b@);
    true
}

/// Append every byte of `source` to `destination`.
pub fn append_bytes(destination: &mut Vec<u8>, source: &[u8])
    ensures
        final(destination)@ == old(destination)@ + source@,
{
    let mut i: usize = 0;
    while i < source.len()
        invariant
            i <= source.len(),
            destination@ == old(destination)@ + source@.subrange(0, i as int),
        decreases source.len() - i,
    {
        destination.push(source[i]);
        i = i + 1;
        assert(destination@ =~= old(destination)@ + source@.subrange(0, i as int));
    }
    assert(source@.subrange(0, source.len() as int) =~= source@);
}

/// Whether `s[start..start + p.len()]` equals `p`.
pub open spec fn matches_at(s: Seq<u8>, start: int, p: Seq<u8>) -> bool {
    0 <= start && start + p.len() <= s.len() && s.subrange(start, start + p.len()) == p
}

/// Whether `p` occurs in `s` at `start`.
pub fn bytes_match_at(s: &[u8], start: usize, p: &[u8]) -> (r: bool)
    ensures
        r == matches_at(s@, start as int, p@),
{
    if start > s.len() || p.len() > s.len() - start {
        return false;
    }
    let mut i: usize = 0;
    while i < p.len()
        invariant
            start + p.len() <= s.len(),
            i <= p.len(),
            forall|j: int| 0 <= j < i ==> s@[start + j] == p@[j],
        decreases p.len() - i,
    {
        if s[start + i] != p[i] {
            assert(s@.subrange(start as int, start + p.len())[i as int] != p@[i as int]);
            return false;
        }
        i = i + 1;
    }
    assert(s@.subrange(start as int, start + p@.len()) =~= p@);
    true
}

/// The first scalar's validity, computed with the same formulas as the specification.
fn first_scalar_ok(s: &[u8], i: usize) -> (r: Option<usize>)
    requires
        i < s.len(),
    ensures
        r is Some <==> valid_first_scalar(s@.subrange(i as int, s@.len() as int)),
        r matches Some(n) ==> n == length_of_first_scalar(s@.subrange(i as int, s@.len() as int))
            && i + n <= s.len(),
{
    let ghost rest = s@.subrange(i as int, s@.len() as int);
    let avail = s.len() - i;
    let b0 = s[i];
    if b0 <= 0x7f {
        assert(valid_first_scalar(rest));
        return Some(1);
    }
    if 0xc0 <= b0 && b0 <= 0xdf {
        if avail < 2 {
            return None;
        }
        let b1 = s[i + 1];
        if !(0x80 <= b1 && b1 <= 0xbf) {
            return None;
        }
        let cp: u32 = (((b0 & 0x1F) as u32) << 6) | ((b1 & 0x3f) as u32);
        assert(cp == decode_first_codepoint(rest));
        if cp < 0x80 {
            return None;
        }
        if 0xD800 <= cp && cp <= 0xDFFF {
            return None;
        }
        return Some(2);
    }
    if 0xe0 <= b0 && b0 <= 0xef {
        if avail < 3 {
            return None;
        }
        let b1 = s[i + 1];
        let b2 = s[i + 2];
        if !(0x80 <= b1 && b1 <= 0xbf) || !(0x80 <= b2 && b2 <= 0xbf) {
            return None;
        }
        let cp: u32 = (((b0 & 0x0F) as u32) << 12) | (((b1 & 0x3f) as u32) << 6) | ((b2
            & 0x3f) as u32);
        assert(cp == decode_first_codepoint(rest));
        if cp < 0x800 {
            return None;
        }
        if 0xD800 <= cp && cp <= 0xDFFF {
            return None;
        }
        return Some(3);
    }
    if 0xf0 <= b0 && b0 <= 0xf7 {
        if avail < 4 {
            return None;
        }
        let b1 = s[i + 1];
        let b2 = s[i + 2];
        let b3 = s[i + 3];
        if !(0x80 <= b1 && b1 <= 0xbf) || !(0x80 <= b2 && b2 <= 0xbf) || !(0x80 <= b3 && b3
            <= 0xbf) {
            return None;
        }
        let cp: u32 = (((b0 & 0x07) as u32) << 18) | (((b1 & 0x3f) as u32) << 12) | (((b2
            & 0x3f) as u32) << 6) | ((b3 & 0x3f) as u32);
        assert(cp == decode_first_codepoint(rest));
        if !(0x10000 <= cp && cp <= 0x10ffff) {
            return None;
        }
        if 0xD800 <= cp && cp <= 0xDFFF {
            return None;
        }
        return Some(4);
    }
    None
}

/// Whether `s` is well-formed UTF-8.
pub fn is_valid_utf8(s: &[u8]) -> (r: bool)
    ensures
        r == valid_utf8(s@),
{
    let mut i: usize = 0;
    assert(s@.subrange(0, 0) =~= Seq::<u8>::empty());
    while i < s.len()
        invariant
            i <= s.len(),
            partial_valid_utf8(s@, i as int),
        decreases s.len() - i,
    {
        match first_scalar_ok(s, i) {
            Some(n) => {
                proof {
                    partial_valid_utf8_extend(s@, i as int);
                }
                i = i + n;
            },
            None => {
                proof {
                    let rest = s@.subrange(i as int, s@.len() as int);
                    assert(!valid_utf8(rest));
                    partial_valid_partial_invalid_utf8(s@, i as int);
                }
                return false;
            },
        }
    }
    assert(s@.subrange(0, s@.len() as int) =~= s@);
    true
}

} // verus!
