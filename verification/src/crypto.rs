//! Signature-encoding rules of the two algorithm slots, and the trusted
//! boundary to the curve arithmetic of curve25519-dalek and p256.

use vstd::prelude::*;
use vstd::slice::slice_to_vec;
use crate::algorithm::AlgorithmId;
use curve25519_dalek::edwards::{CompressedEdwardsY, EdwardsPoint};
use curve25519_dalek::scalar::Scalar;
use curve25519_dalek::traits::IsIdentity;
use sha2::Digest;
use signature::Verifier;

verus! {

/// The little-endian value of a byte string.
pub open spec fn le_value(b: Seq<u8>) -> nat
    decreases b.len(),
{
    if b.len() == 0 {
        0
    } else {
        b[0] as nat + 256 * le_value(b.drop_first())
    }
}

/// The big-endian value of a byte string.
pub open spec fn be_value(b: Seq<u8>) -> nat
    decreases b.len(),
{
    if b.len() == 0 {
        0
    } else {
        be_value(b.drop_last()) * 256 + b.last() as nat
    }
}

/// The order of the edwards25519 prime-order subgroup.
pub open spec fn ed25519_group_order() -> nat {
    0x1000000000000000000000000000000014DEF9DEA2F79CD65812631A5CF5D3EDnat
}

/// The order of the P-256 group.
pub open spec fn p256_group_order() -> nat {
    0xFFFFFFFF00000000FFFFFFFFFFFFFFFFBCE6FAADA7179E84F3B9CAC2FC632551nat
}

/// Whether 32 bytes encode a canonical Ed25519 scalar (little-endian, below
/// the group order).
pub open spec fn ed25519_scalar_canonical(s: Seq<u8>) -> bool {
    s.len() == 32 && le_value(s) < ed25519_group_order()
}

/// Whether 64 bytes are a raw P-256 `r || s` signature with both components
/// in `[1, n)` (big-endian).
pub open spec fn p256_signature_well_formed(sig: Seq<u8>) -> bool {
    &&& sig.len() == 64
    &&& 0 < be_value(sig.subrange(0, 32)) < p256_group_order()
    &&& 0 < be_value(sig.subrange(32, 64)) < p256_group_order()
}

/// The re-compressed encoding of the edwards25519 point that `bytes`
/// decompresses to, or `None` when `bytes` does not decompress.
pub uninterp spec fn ed25519_recompression(bytes: Seq<u8>) -> Option<Seq<u8>>;

/// Whether the point that `bytes` decompresses to has small order, or
/// `None` when `bytes` does not decompress.
pub uninterp spec fn ed25519_small_order(bytes: Seq<u8>) -> Option<bool>;

/// The `len` little-endian bytes of `n`; higher bytes of `n` are dropped.
pub open spec fn le_bytes(n: nat, len: nat) -> Seq<u8>
    decreases len,
{
    if len == 0 {
        Seq::empty()
    } else {
        seq![(n % 256) as u8] + le_bytes(n / 256, (len - 1) as nat)
    }
}

/// The SHA-512 digest of `data`.
pub uninterp spec fn sha512_digest(data: Seq<u8>) -> Seq<u8>;

/// The RFC 8032 challenge of `R || A || message`: its SHA-512 digest read
/// little-endian and reduced modulo the group order, as 32 bytes.
pub open spec fn ed25519_challenge(r: Seq<u8>, public_key: Seq<u8>, message: Seq<u8>) -> Seq<u8> {
    le_bytes(le_value(sha512_digest(r + public_key + message)) % ed25519_group_order(), 32)
}

/// The compressed encoding of `[s]B`, `s` read modulo the group order.
pub uninterp spec fn ed25519_base_multiple(s: Seq<u8>) -> Seq<u8>;

/// The compressed encoding of `[k]P` for the point `P` that `p`
/// decompresses to, or `None` when `p` does not decompress.
pub uninterp spec fn ed25519_multiple(k: Seq<u8>, p: Seq<u8>) -> Option<Seq<u8>>;

/// The compressed encoding of `P - Q`, or `None` when `p` or `q` does not
/// decompress.
pub uninterp spec fn ed25519_difference(p: Seq<u8>, q: Seq<u8>) -> Option<Seq<u8>>;

/// The compressed encoding of `[8]P`, or `None` when `p` does not
/// decompress.
pub uninterp spec fn ed25519_cofactor_multiple(p: Seq<u8>) -> Option<Seq<u8>>;

/// Whether the point that `p` decompresses to is the identity, or `None`
/// when `p` does not decompress.
pub uninterp spec fn ed25519_identity_test(p: Seq<u8>) -> Option<bool>;

/// Whether `[8](S·B − R − k·A)` is the identity for the points `A` and `R`
/// and the scalars `S` and `k` encoded by the arguments.
pub open spec fn ed25519_cofactored_equation(
    public_key: Seq<u8>,
    r: Seq<u8>,
    s: Seq<u8>,
    k: Seq<u8>,
) -> bool {
    match ed25519_difference(ed25519_base_multiple(s), r) {
        None => false,
        Some(d) => match ed25519_multiple(k, public_key) {
            None => false,
            Some(ka) => match ed25519_difference(d, ka) {
                None => false,
                Some(e) => match ed25519_cofactor_multiple(e) {
                    None => false,
                    Some(c) => ed25519_identity_test(c) == Some(true),
                },
            },
        },
    }
}

/// The verdict of cofactored Ed25519 verification.
pub open spec fn ed25519_verifies(public_key: Seq<u8>, message: Seq<u8>, sig: Seq<u8>) -> bool {
    let r = sig.subrange(0, 32);
    let s = sig.subrange(32, 64);
    ed25519_cofactored_equation(public_key, r, s, ed25519_challenge(r, public_key, message))
}

/// Whether `bytes` is a SEC 1 encoding of a P-256 public key that p256
/// accepts.
pub uninterp spec fn p256_sec1_key_accepted(bytes: Seq<u8>) -> bool;

/// Whether ECDSA P-256 SHA-256 verification of `signature` over `message`
/// under the SEC 1 key `public_key` succeeds.
pub uninterp spec fn p256_ecdsa_verifies(
    public_key: Seq<u8>,
    message: Seq<u8>,
    signature: Seq<u8>,
) -> bool;

/// Whether `bytes` is a canonical encoding of an edwards25519 point.
pub open spec fn ed25519_point_canonical(bytes: Seq<u8>) -> bool {
    bytes.len() == 32 && ed25519_recompression(bytes) == Some(bytes)
}

/// Whether 64 signature octets have a canonical `R` point and `S` scalar.
pub open spec fn ed25519_signature_canonical(sig: Seq<u8>) -> bool {
    &&& sig.len() == 64
    &&& ed25519_point_canonical(sig.subrange(0, 32))
    &&& ed25519_scalar_canonical(sig.subrange(32, 64))
}

/// Whether a 32-byte Ed25519 public key is admissible: a canonical point
/// encoding of a point that is not of small order.
pub open spec fn ed25519_key_admissible(key: Seq<u8>) -> bool {
    ed25519_point_canonical(key) && ed25519_small_order(key) == Some(false)
}

pub open spec fn opt_vec(o: Option<Vec<u8>>) -> Option<Seq<u8>> {
    match o {
        Some(v) => Some(v@),
        None => None,
    }
}

/// Calls `CompressedEdwardsY::decompress`, then `EdwardsPoint::compress`.
/// Trusted: the result is the named re-compression of `bytes`.
#[verifier::external_body]
fn ed25519_recompress(bytes: &[u8]) -> (r: Option<Vec<u8>>)
    requires
        bytes.len() == 32,
    ensures
        opt_vec(r) == ed25519_recompression(bytes@),
{
    let mut a = [0u8; 32];
    a.copy_from_slice(bytes);
    CompressedEdwardsY(a).decompress().map(|p| p.compress().to_bytes().to_vec())
}

/// Calls `CompressedEdwardsY::decompress`, then `EdwardsPoint::is_small_order`.
/// Trusted: the result is the named small-order test of `bytes`.
#[verifier::external_body]
fn ed25519_is_small_order(bytes: &[u8]) -> (r: Option<bool>)
    requires
        bytes.len() == 32,
    ensures
        r == ed25519_small_order(bytes@),
{
    let mut a = [0u8; 32];
    a.copy_from_slice(bytes);
    CompressedEdwardsY(a).decompress().map(|p| p.is_small_order())
}

/// Calls `Scalar::from_canonical_bytes`.
/// Trusted: it accepts exactly the little-endian values below the group
/// order.
#[verifier::external_body]
fn ed25519_scalar_from_canonical_bytes(bytes: &[u8]) -> (r: bool)
    requires
        bytes.len() == 32,
    ensures
        r == ed25519_scalar_canonical(bytes@),
{
    let mut a = [0u8; 32];
    a.copy_from_slice(bytes);
    bool::from(Scalar::from_canonical_bytes(a).is_some())
}

/// Feeds the three parts in order to one `sha2::Sha512` hasher and
/// finalizes it. Trusted: the result is the named digest of their
/// concatenation, 64 bytes long.
#[verifier::external_body]
fn sha512_of_parts(a: &[u8], b: &[u8], c: &[u8]) -> (d: Vec<u8>)
    ensures
        d@ == sha512_digest(a@ + b@ + c@),
        d@.len() == 64,
{
    sha2::Sha512::new().chain_update(a).chain_update(b).chain_update(c).finalize().to_vec()
}

/// Calls `Scalar::from_bytes_mod_order_wide`, then `Scalar::to_bytes`.
/// Trusted: as documented, the scalar is the 512-bit little-endian input
/// reduced modulo the group order; its bytes are little-endian.
#[verifier::external_body]
fn scalar_from_wide(wide: &[u8]) -> (s: Vec<u8>)
    requires
        wide.len() == 64,
    ensures
        s@ == le_bytes(le_value(wide@) % ed25519_group_order(), 32),
        s@.len() == 32,
{
    let mut a = [0u8; 64];
    a.copy_from_slice(wide);
    Scalar::from_bytes_mod_order_wide(&a).to_bytes().to_vec()
}

/// Calls `EdwardsPoint::mul_base` on `Scalar::from_bytes_mod_order(s)`
/// and compresses the result. Trusted: the result is the named multiple.
#[verifier::external_body]
fn ed25519_mul_base(s: &[u8]) -> (p: Vec<u8>)
    requires
        s.len() == 32,
    ensures
        p@ == ed25519_base_multiple(s@),
        p@.len() == 32,
{
    let mut a = [0u8; 32];
    a.copy_from_slice(s);
    EdwardsPoint::mul_base(&Scalar::from_bytes_mod_order(a)).compress().to_bytes().to_vec()
}

/// Calls `Scalar * EdwardsPoint` on `Scalar::from_bytes_mod_order(k)` and
/// the decompressed `p`, and compresses the result. Trusted: the result is
/// the named multiple.
#[verifier::external_body]
fn ed25519_mul(k: &[u8], p: &[u8]) -> (r: Option<Vec<u8>>)
    requires
        k.len() == 32,
        p.len() == 32,
    ensures
        opt_vec(r) == ed25519_multiple(k@, p@),
        r matches Some(v) ==> v@.len() == 32,
{
    let mut ka = [0u8; 32];
    ka.copy_from_slice(k);
    let mut pa = [0u8; 32];
    pa.copy_from_slice(p);
    let point = CompressedEdwardsY(pa).decompress()?;
    Some((Scalar::from_bytes_mod_order(ka) * point).compress().to_bytes().to_vec())
}

/// Calls `EdwardsPoint - EdwardsPoint` on the decompressed `p` and `q`, and
/// compresses the result. Trusted: the result is the named difference.
#[verifier::external_body]
fn ed25519_sub(p: &[u8], q: &[u8]) -> (r: Option<Vec<u8>>)
    requires
        p.len() == 32,
        q.len() == 32,
    ensures
        opt_vec(r) == ed25519_difference(p@, q@),
        r matches Some(v) ==> v@.len() == 32,
{
    let mut pa = [0u8; 32];
    pa.copy_from_slice(p);
    let mut qa = [0u8; 32];
    qa.copy_from_slice(q);
    let first = CompressedEdwardsY(pa).decompress()?;
    let second = CompressedEdwardsY(qa).decompress()?;
    Some((first - second).compress().to_bytes().to_vec())
}

/// Calls `EdwardsPoint::mul_by_cofactor` on the decompressed `p`, and
/// compresses the result. Trusted: the result is the named multiple.
#[verifier::external_body]
fn ed25519_mul_by_cofactor(p: &[u8]) -> (r: Option<Vec<u8>>)
    requires
        p.len() == 32,
    ensures
        opt_vec(r) == ed25519_cofactor_multiple(p@),
        r matches Some(v) ==> v@.len() == 32,
{
    let mut a = [0u8; 32];
    a.copy_from_slice(p);
    Some(CompressedEdwardsY(a).decompress()?.mul_by_cofactor().compress().to_bytes().to_vec())
}

/// Calls `IsIdentity::is_identity` on the decompressed `p`. Trusted: the
/// result is the named identity test.
#[verifier::external_body]
fn ed25519_is_identity(p: &[u8]) -> (r: Option<bool>)
    requires
        p.len() == 32,
    ensures
        r == ed25519_identity_test(p@),
{
    let mut a = [0u8; 32];
    a.copy_from_slice(p);
    Some(CompressedEdwardsY(a).decompress()?.is_identity())
}

/// Calls `p256::ecdsa::Signature::from_slice`.
/// Trusted: it accepts exactly 64 bytes whose big-endian halves both lie in
/// `[1, n)`.
#[verifier::external_body]
fn p256_signature_from_slice(sig: &[u8]) -> (r: bool)
    ensures
        r == p256_signature_well_formed(sig@),
{
    p256::ecdsa::Signature::from_slice(sig).is_ok()
}

/// Calls `p256::ecdsa::VerifyingKey::from_sec1_bytes`.
/// Trusted: the result is the named acceptance of `bytes`.
#[verifier::external_body]
fn p256_key_from_sec1(bytes: &[u8]) -> (r: bool)
    ensures
        r == p256_sec1_key_accepted(bytes@),
{
    p256::ecdsa::VerifyingKey::from_sec1_bytes(bytes).is_ok()
}

/// Calls `signature::Verifier::verify` for a P-256 key.
/// Trusted: the result is the named verification; the caller guarantees the
/// key and the signature parse.
#[verifier::external_body]
fn p256_verify(public_key: &[u8], message: &[u8], sig: &[u8]) -> (r: bool)
    requires
        p256_sec1_key_accepted(public_key@),
        p256_signature_well_formed(sig@),
    ensures
        r == p256_ecdsa_verifies(public_key@, message@, sig@),
{
    match (p256::ecdsa::VerifyingKey::from_sec1_bytes(public_key), p256::ecdsa::Signature::from_slice(sig)) {
        (Ok(vk), Ok(signature)) => vk.verify(message, &signature).is_ok(),
        _ => false,
    }
}

/// Whether `bytes` is a canonical edwards25519 point encoding.
pub fn decode_canonical_edwards_point(bytes: &[u8]) -> (r: bool)
    ensures
        r == ed25519_point_canonical(bytes@),
{
    if bytes.len() != 32 {
        return false;
    }
    match ed25519_recompress(bytes) {
        Some(again) => crate::bytes::bytes_eq(again.as_slice(), bytes),
        None => false,
    }
}

/// Whether signature octets have the canonical `R || S` form of the Ed25519
/// slot: 64 octets, a canonical `R` point, and a canonical `S` scalar.
pub fn ed25519_signature_is_canonical(sig: &[u8]) -> (r: bool)
    ensures
        r == ed25519_signature_canonical(sig@),
{
    if sig.len() != 64 {
        return false;
    }
    let r_bytes = &sig[0..32];
    let s_bytes = &sig[32..64];
    if !decode_canonical_edwards_point(r_bytes) {
        return false;
    }
    ed25519_scalar_from_canonical_bytes(s_bytes)
}

/// Whether an Ed25519 public key encoding is admissible.
pub fn ed25519_verifying_key_is_admissible(key: &[u8]) -> (r: bool)
    ensures
        r == ed25519_key_admissible(key@),
{
    if !decode_canonical_edwards_point(key) {
        return false;
    }
    match ed25519_is_small_order(key) {
        Some(small) => !small,
        None => false,
    }
}

/// Whether raw signature octets are a well-formed P-256 `r || s` pair.
pub fn ecdsa_p256_signature_is_well_formed(sig: &[u8]) -> (r: bool)
    ensures
        r == p256_signature_well_formed(sig@),
{
    p256_signature_from_slice(sig)
}

/// The cofactored Ed25519 equation for a canonical signature under an
/// admissible key.
fn ed25519_equation_holds(public_key: &[u8], payload: &[u8], sig: &[u8]) -> (r: bool)
    requires
        ed25519_key_admissible(public_key@),
        ed25519_signature_canonical(sig@),
    ensures
        r == ed25519_verifies(public_key@, payload@, sig@),
{
    let r_bytes = &sig[0..32];
    let s_bytes = &sig[32..64];
    let digest = sha512_of_parts(r_bytes, public_key, payload);
    let k = scalar_from_wide(digest.as_slice());
    let sb = ed25519_mul_base(s_bytes);
    let d = match ed25519_sub(sb.as_slice(), r_bytes) {
        Some(d) => d,
        None => return false,
    };
    let ka = match ed25519_mul(k.as_slice(), public_key) {
        Some(v) => v,
        None => return false,
    };
    let e = match ed25519_sub(d.as_slice(), ka.as_slice()) {
        Some(v) => v,
        None => return false,
    };
    let c = match ed25519_mul_by_cofactor(e.as_slice()) {
        Some(v) => v,
        None => return false,
    };
    match ed25519_is_identity(c.as_slice()) {
        Some(b) => b,
        None => false,
    }
}

/// Cofactored Ed25519 verification: the signature must have a canonical
/// `R` point and `S` scalar, the key must be admissible, and
/// `[8](S·B − R − k·A)` must be the identity.
pub fn verify_ed25519(public_key: &[u8], payload: &[u8], sig: &[u8]) -> (r: Result<(), ()>)
    ensures
        r is Ok <==> ed25519_signature_canonical(sig@) && ed25519_key_admissible(public_key@)
            && ed25519_verifies(public_key@, payload@, sig@),
{
    if !ed25519_signature_is_canonical(sig) || !ed25519_verifying_key_is_admissible(public_key) {
        return Err(());
    }
    if ed25519_equation_holds(public_key, payload, sig) {
        Ok(())
    } else {
        Err(())
    }
}

/// The stage at which ECDSA verification rejected a signature.
#[derive(Clone, Copy, Debug, PartialEq, Eq, Structural)]
pub enum EcdsaVerifyError {
    /// The octets are not a raw `r || s` pair with both halves in `[1, n)`.
    MalformedSignature,
    /// The signature is well formed and the verification equation fails.
    EquationFailure,
}

/// ECDSA P-256 SHA-256 verification of a raw 64-octet `r || s` signature
/// under an accepted key; ASN.1 DER signatures are malformed here.
pub fn verify_ecdsa_p256_sha256(public_key: &[u8], payload: &[u8], sig: &[u8]) -> (r: Result<
    (),
    EcdsaVerifyError,
>)
    requires
        p256_sec1_key_accepted(public_key@),
    ensures
        !p256_signature_well_formed(sig@) ==> r == Err::<(), EcdsaVerifyError>(
            EcdsaVerifyError::MalformedSignature,
        ),
        p256_signature_well_formed(sig@) && p256_ecdsa_verifies(public_key@, payload@, sig@) ==> r
            == Ok::<(), EcdsaVerifyError>(()),
        p256_signature_well_formed(sig@) && !p256_ecdsa_verifies(public_key@, payload@, sig@) ==> r
            == Err::<(), EcdsaVerifyError>(EcdsaVerifyError::EquationFailure),
{
    if !p256_signature_from_slice(sig) {
        return Err(EcdsaVerifyError::MalformedSignature);
    }
    if p256_verify(public_key, payload, sig) {
        Ok(())
    } else {
        Err(EcdsaVerifyError::EquationFailure)
    }
}

/// Whether p256 accepts a SEC 1 public key encoding.
pub fn p256_verifying_key_is_accepted(bytes: &[u8]) -> (r: bool)
    ensures
        r == p256_sec1_key_accepted(bytes@),
{
    p256_key_from_sec1(bytes)
}

/// Whether a P-256 public key is the `0x04 || X || Y` SEC 1 encoding of a
/// key that p256 accepts.
pub open spec fn p256_key_resolvable(bytes: Seq<u8>) -> bool {
    bytes.len() == 65 && bytes[0] == 0x04 && p256_sec1_key_accepted(bytes)
}

/// Whether canonical public-key bytes are admissible for `algorithm`: an
/// admissible Ed25519 point encoding, or the `0x04 || X || Y` SEC 1
/// encoding of a P-256 key that p256 accepts.
pub open spec fn provider_public_key_admissible(algorithm: AlgorithmId, bytes: Seq<u8>) -> bool {
    match algorithm {
        AlgorithmId::Ed25519 => ed25519_key_admissible(bytes),
        AlgorithmId::EcdsaP256Sha256 => p256_key_resolvable(bytes),
    }
}

/// Whether canonical public-key bytes are admissible for `algorithm`.
pub fn provider_public_key_is_admissible(algorithm: AlgorithmId, bytes: &[u8]) -> (r: bool)
    ensures
        r == provider_public_key_admissible(algorithm, bytes@),
{
    match algorithm {
        AlgorithmId::Ed25519 => ed25519_verifying_key_is_admissible(bytes),
        AlgorithmId::EcdsaP256Sha256 => {
            if bytes.len() != 65 || bytes[0] != 0x04 {
                return false;
            }
            p256_key_from_sec1(bytes)
        },
    }
}

/// Resolve a 32-byte Ed25519 public key: it must be a canonical encoding of
/// a point that is not of small order.
pub fn resolve_ed25519_verifying_key(bytes: &[u8]) -> (r: Result<Vec<u8>, crate::verify::InvocationError>)
    ensures
        ed25519_key_admissible(bytes@) ==> (r matches Ok(k) && k@ == bytes@),
        !ed25519_key_admissible(bytes@) ==> r == Err::<Vec<u8>, crate::verify::InvocationError>(
            crate::verify::InvocationError::KeyResolutionFailure,
        ),
{
    if !ed25519_verifying_key_is_admissible(bytes) {
        return Err(crate::verify::InvocationError::KeyResolutionFailure);
    }
    Ok(slice_to_vec(bytes))
}

/// Resolve a 65-byte uncompressed SEC 1 P-256 public key.
pub fn resolve_p256_verifying_key(bytes: &[u8]) -> (r: Result<Vec<u8>, crate::verify::InvocationError>)
    ensures
        p256_key_resolvable(bytes@) ==> (r matches Ok(k) && k@ == bytes@),
        !p256_key_resolvable(bytes@) ==> r == Err::<Vec<u8>, crate::verify::InvocationError>(
            crate::verify::InvocationError::KeyResolutionFailure,
        ),
{
    if bytes.len() != 65 || bytes[0] != 0x04 {
        return Err(crate::verify::InvocationError::KeyResolutionFailure);
    }
    if !p256_key_from_sec1(bytes) {
        return Err(crate::verify::InvocationError::KeyResolutionFailure);
    }
    Ok(slice_to_vec(bytes))
}

/// The compressed public key of the Ed25519 secret key `secret`.
pub uninterp spec fn ed25519_public_key_of(secret: Seq<u8>) -> Seq<u8>;

/// The Ed25519 signature of `message` by the secret key `secret`.
pub uninterp spec fn ed25519_signature_by(secret: Seq<u8>, message: Seq<u8>) -> Seq<u8>;

/// The SEC 1 uncompressed public key of the P-256 secret scalar `secret`,
/// or `None` when `secret` is not a valid secret scalar.
pub uninterp spec fn p256_public_key_of(secret: Seq<u8>) -> Option<Seq<u8>>;

/// The raw `r || s` ECDSA P-256 SHA-256 signature of `message` by
/// `secret`, or `None` when the key is invalid or signing fails.
pub uninterp spec fn p256_signature_by(secret: Seq<u8>, message: Seq<u8>) -> Option<Seq<u8>>;

/// Calls `ed25519_dalek::SigningKey::from_bytes` and `Signer::sign`.
/// Trusted: the result is the named signature; as RFC 8032 signing
/// guarantees, it has a canonical `R` and `S` and satisfies the cofactored
/// equation under the public key of `secret`.
#[verifier::external_body]
pub(crate) fn ed25519_sign(secret: &[u8], message: &[u8]) -> (sig: Vec<u8>)
    requires
        secret.len() == 32,
    ensures
        sig@ == ed25519_signature_by(secret@, message@),
        ed25519_signature_canonical(sig@),
        ed25519_verifies(ed25519_public_key_of(secret@), message@, sig@),
{
    let mut a = [0u8; 32];
    a.copy_from_slice(secret);
    ed25519_dalek::Signer::sign(&ed25519_dalek::SigningKey::from_bytes(&a), message).to_bytes().to_vec()
}

/// Calls `ed25519_dalek::SigningKey::from_bytes` and `verifying_key`.
/// Trusted: the result is the named public key of `secret`; being a
/// non-zero multiple of the base point in canonical encoding, it is
/// admissible.
#[verifier::external_body]
pub(crate) fn ed25519_public_key(secret: &[u8]) -> (pk: Vec<u8>)
    requires
        secret.len() == 32,
    ensures
        pk@ == ed25519_public_key_of(secret@),
        ed25519_key_admissible(pk@),
{
    let mut a = [0u8; 32];
    a.copy_from_slice(secret);
    ed25519_dalek::SigningKey::from_bytes(&a).verifying_key().to_bytes().to_vec()
}

/// Calls `p256::ecdsa::SigningKey::from_slice` and `Signer::try_sign`.
/// Trusted: the result is the named signature; a produced signature is a
/// well-formed `r || s` pair that verifies under the public key of `secret`.
#[verifier::external_body]
pub(crate) fn p256_sign(secret: &[u8], message: &[u8]) -> (sig: Option<Vec<u8>>)
    ensures
        opt_vec(sig) == p256_signature_by(secret@, message@),
        sig matches Some(s) ==> p256_signature_well_formed(s@) && (p256_public_key_of(
            secret@,
        ) matches Some(pk) && p256_sec1_key_accepted(pk) && p256_ecdsa_verifies(pk, message@, s@)),
{
    let key = p256::ecdsa::SigningKey::from_slice(secret).ok()?;
    let signature: p256::ecdsa::Signature = p256::ecdsa::signature::Signer::try_sign(&key, message).ok()?;
    Some(signature.to_bytes().to_vec())
}

/// Calls `p256::ecdsa::SigningKey::from_slice` and `verifying_key`.
/// Trusted: the result is the named public key of `secret`.
#[verifier::external_body]
pub(crate) fn p256_public_key(secret: &[u8]) -> (pk: Option<Vec<u8>>)
    ensures
        opt_vec(pk) == p256_public_key_of(secret@),
{
    let key = p256::ecdsa::SigningKey::from_slice(secret).ok()?;
    Some(key.verifying_key().to_encoded_point(false).as_bytes().to_vec())
}

} // verus!
