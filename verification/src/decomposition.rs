//! Artifact decomposition for the signed YAML stream envelope.
//!
//! A signed YAML stream is `payload || marker || carrier`, where the marker
//! is the last `---` at a line start followed directly by LF or CRLF.

use vstd::prelude::*;
use vstd::utf8::valid_utf8;
use core::ops::Range;
use crate::bytes::is_valid_utf8;
use crate::payload::{bom_at_zero, starts_with_bom};

verus! {

/// Successful split of an artifact into payload and signature-document byte ranges.
#[derive(Debug, PartialEq, Eq)]
pub struct SignatureRanges {
    /// Payload `[0, M)`.
    pub payload: Range<usize>,
    /// Marker-inclusive YAML signature document `[M, |A|)`.
    pub signature_document: Range<usize>,
    /// Markerless signature carrier `[T, |A|)`.
    pub signature_carrier: Range<usize>,
}

/// Outcome of the decomposition pass (a parser-independent byte scan).
#[derive(Debug, PartialEq, Eq)]
pub enum DecompositionOutcome {
    /// No signing attempt (`|A| = 0` or no constrained marker).
    Unsigned,
    /// Structural failure (encoding, BOM, or marker rules).
    Malformed,
    /// Payload and signature-document ranges; the carrier is non-empty.
    Signed(SignatureRanges),
}

/// Whether `idx` is a line start: offset 0 or just after an LF.
pub open spec fn is_line_start(b: Seq<u8>, idx: int) -> bool {
    idx == 0 || (0 < idx <= b.len() && b[idx - 1] == 0x0A)
}

/// Length of the constrained marker at `i` (`---` at a line start followed
/// by LF or CRLF), if there is one.
pub open spec fn marker_len_at(b: Seq<u8>, i: int) -> Option<int> {
    if i < 0 || i + 3 > b.len() {
        None
    } else if b[i] != 0x2D || b[i + 1] != 0x2D || b[i + 2] != 0x2D {
        None
    } else if !is_line_start(b, i) {
        None
    } else if i + 3 >= b.len() {
        None
    } else if b[i + 3] == 0x0A {
        Some(4)
    } else if b[i + 3] == 0x0D && i + 5 <= b.len() && b[i + 4] == 0x0A {
        Some(5)
    } else {
        None
    }
}

/// Whether a constrained marker starts at `i`.
pub open spec fn is_marker_at(b: Seq<u8>, i: int) -> bool {
    marker_len_at(b, i) is Some
}

/// The largest marker offset below `n`.
pub open spec fn last_marker_below(b: Seq<u8>, n: int) -> Option<int>
    decreases n,
{
    if n <= 0 {
        None
    } else if is_marker_at(b, n - 1) {
        Some(n - 1)
    } else {
        last_marker_below(b, n - 1)
    }
}

/// The offset of the last constrained marker in `b`.
pub open spec fn last_marker(b: Seq<u8>) -> Option<int> {
    last_marker_below(b, b.len() as int)
}

/// The ranges of a signed artifact split at marker `m` ending at `t`.
pub open spec fn ranges_of(m: int, t: int, n: int) -> SignatureRanges {
    SignatureRanges {
        payload: Range { start: 0usize, end: m as usize },
        signature_document: Range { start: m as usize, end: n as usize },
        signature_carrier: Range { start: t as usize, end: n as usize },
    }
}

/// The outcome of Artifact Decomposition on `a`.
pub open spec fn decomposition_of(a: Seq<u8>) -> DecompositionOutcome {
    if !valid_utf8(a) || bom_at_zero(a) {
        DecompositionOutcome::Malformed
    } else if a.len() == 0 {
        DecompositionOutcome::Unsigned
    } else {
        match last_marker(a) {
            None => DecompositionOutcome::Unsigned,
            Some(m) => {
                let t = m + marker_len_at(a, m).unwrap();
                if t >= a.len() {
                    DecompositionOutcome::Malformed
                } else {
                    DecompositionOutcome::Signed(ranges_of(m, t, a.len() as int))
                }
            },
        }
    }
}

/// Whether `idx` is a line start in `bytes` (LF aware).
fn is_line_start_exec(bytes: &[u8], idx: usize) -> (r: bool)
    ensures
        r == is_line_start(bytes@, idx as int),
{
    if idx == 0 {
        return true;
    }
    if idx > bytes.len() {
        return false;
    }
    bytes[idx - 1] == 0x0A
}

/// Constrained marker at `i`: `---` at line start, followed by LF or CRLF.
pub fn marker_len(bytes: &[u8], i: usize) -> (r: Option<usize>)
    ensures
        r matches Some(n) ==> marker_len_at(bytes@, i as int) == Some(n as int),
        r is None ==> marker_len_at(bytes@, i as int) is None,
{
    if i > bytes.len() || bytes.len() - i < 3 {
        return None;
    }
    if bytes[i] != 0x2D || bytes[i + 1] != 0x2D || bytes[i + 2] != 0x2D {
        return None;
    }
    if !is_line_start_exec(bytes, i) {
        return None;
    }
    if i + 3 >= bytes.len() {
        return None;
    }
    if bytes[i + 3] == 0x0A {
        Some(4)
    } else if bytes[i + 3] == 0x0D && bytes.len() - i >= 5 && bytes[i + 4] == 0x0A {
        Some(5)
    } else {
        None
    }
}

/// No marker starts inside a marker: the scan may skip past one.
proof fn lemma_no_marker_inside(b: Seq<u8>, i: int)
    requires
        is_marker_at(b, i),
    ensures
        forall|j: int| i < j < i + marker_len_at(b, i).unwrap() ==> !is_marker_at(b, j),
{
}

/// Unmarked stretches leave the last marker unchanged.
pub proof fn lemma_last_marker_skip(b: Seq<u8>, lo: int, hi: int)
    requires
        0 <= lo <= hi,
        forall|j: int| lo <= j < hi ==> !is_marker_at(b, j),
    ensures
        last_marker_below(b, hi) == last_marker_below(b, lo),
    decreases hi - lo,
{
    if hi > lo {
        lemma_last_marker_skip(b, lo, hi - 1);
    }
}

/// The last marker below `n` is a marker below `n`.
pub proof fn lemma_last_marker_is_marker(b: Seq<u8>, n: int)
    ensures
        last_marker_below(b, n) matches Some(m) ==> is_marker_at(b, m) && 0 <= m < n,
    decreases n,
{
    if n > 0 && !is_marker_at(b, n - 1) {
        lemma_last_marker_is_marker(b, n - 1);
    }
}

fn find_last_marker(bytes: &[u8]) -> (r: Option<usize>)
    ensures
        r matches Some(m) ==> last_marker(bytes@) == Some(m as int),
        r is None ==> last_marker(bytes@) is None,
{
    let mut last: Option<usize> = None;
    let mut i: usize = 0;
    while i < bytes.len()
        invariant
            i <= bytes.len(),
            last matches Some(m) ==> last_marker_below(bytes@, i as int) == Some(m as int),
            last is None ==> last_marker_below(bytes@, i as int) is None,
        decreases bytes.len() - i,
    {
        match marker_len(bytes, i) {
            Some(len) => {
                proof {
                    lemma_no_marker_inside(bytes@, i as int);
                    lemma_last_marker_skip(bytes@, i + 1, i + len);
                }
                last = Some(i);
                i = i + len;
            },
            None => {
                i = i + 1;
            },
        }
    }
    last
}

/// Run Artifact Decomposition on artifact bytes (no YAML parse).
pub fn decompose_artifact(artifact: &[u8]) -> (r: DecompositionOutcome)
    ensures
        r == decomposition_of(artifact@),
{
    if !is_valid_utf8(artifact) || starts_with_bom(artifact) {
        return DecompositionOutcome::Malformed;
    }
    if artifact.len() == 0 {
        return DecompositionOutcome::Unsigned;
    }
    let m = match find_last_marker(artifact) {
        Some(m) => m,
        None => return DecompositionOutcome::Unsigned,
    };
    proof {
        lemma_last_marker_is_marker(artifact@, artifact@.len() as int);
    }
    let marker_tail = match marker_len(artifact, m) {
        Some(len) => len,
        None => return DecompositionOutcome::Malformed,
    };
    let t = m + marker_tail;
    if t >= artifact.len() {
        return DecompositionOutcome::Malformed;
    }
    DecompositionOutcome::Signed(
        SignatureRanges {
            payload: 0..m,
            signature_document: m..artifact.len(),
            signature_carrier: t..artifact.len(),
        },
    )
}

} // verus!
