//! Provider-backed signing keys: an opaque signer bound to canonical
//! public-key bytes. The qualified key self-verifies every signature the
//! signer produced; the unqualified key checks only its structure.

use vstd::prelude::*;
use vstd::slice::slice_to_vec;
use crate::algorithm::AlgorithmId;
use crate::crypto::{
    ecdsa_p256_signature_is_well_formed, ed25519_signature_canonical, ed25519_signature_is_canonical,
    ed25519_verifies, p256_ecdsa_verifies, p256_signature_well_formed, provider_public_key_admissible,
    provider_public_key_is_admissible, verify_ecdsa_p256_sha256, verify_ed25519,
};
use crate::sign::SignError;

verus! {

/// Why a provider signing key could not be constructed.
#[derive(Clone, Copy, Debug, PartialEq, Eq, Structural)]
pub enum ProviderSigningKeyErrorKind {
    /// The public-key bytes do not satisfy the selected algorithm.
    InvalidPublicKey,
}

/// Failure while binding a provider signer to its public key.
#[derive(Clone, Copy, Debug, PartialEq, Eq, Structural)]
pub struct ProviderSigningKeyError {
    kind: ProviderSigningKeyErrorKind,
    algorithm: AlgorithmId,
}

impl ProviderSigningKeyError {
    pub closed spec fn spec_kind(&self) -> ProviderSigningKeyErrorKind {
        self.kind
    }

    pub closed spec fn spec_algorithm(&self) -> AlgorithmId {
        self.algorithm
    }

    /// The failure category.
    pub fn kind(&self) -> (r: ProviderSigningKeyErrorKind)
        ensures
            r == self.spec_kind(),
    {
        self.kind
    }

    /// The algorithm whose public key was rejected.
    pub fn algorithm(&self) -> (r: AlgorithmId)
        ensures
            r == self.spec_algorithm(),
    {
        self.algorithm
    }

    /// Human-readable description; it names neither the key nor the signer.
    pub fn message(&self) -> (r: String)
        ensures
            r@ == "provider signing key could not be constructed"@,
    {
        String::from_str("provider signing key could not be constructed")
    }
}

/// The public-key length of `algorithm`.
pub open spec fn public_key_len(algorithm: AlgorithmId) -> nat {
    match algorithm {
        AlgorithmId::Ed25519 => 32,
        AlgorithmId::EcdsaP256Sha256 => 65,
    }
}

/// The public key kept by a builder: the bytes when their length fits the
/// algorithm, empty otherwise.
pub open spec fn bounded_public_key(algorithm: AlgorithmId, bytes: Seq<u8>) -> Seq<u8> {
    if bytes.len() == public_key_len(algorithm) {
        bytes
    } else {
        Seq::empty()
    }
}

fn bounded_public_key_copy(algorithm: AlgorithmId, public_key_bytes: &[u8]) -> (r: Vec<u8>)
    ensures
        r@ == bounded_public_key(algorithm, public_key_bytes@),
{
    let expected_len: usize = match algorithm {
        AlgorithmId::Ed25519 => 32,
        AlgorithmId::EcdsaP256Sha256 => 65,
    };
    if public_key_bytes.len() == expected_len {
        slice_to_vec(public_key_bytes)
    } else {
        Vec::new()
    }
}

/// Whether signature octets have the structure of `algorithm`: a canonical
/// Ed25519 `R || S`, or a P-256 `r || s` with both halves in `[1, n)`.
pub open spec fn provider_signature_structural(algorithm: AlgorithmId, sig: Seq<u8>) -> bool {
    match algorithm {
        AlgorithmId::Ed25519 => ed25519_signature_canonical(sig),
        AlgorithmId::EcdsaP256Sha256 => p256_signature_well_formed(sig),
    }
}

/// Whether signature octets have the structure of `algorithm`.
pub fn provider_signature_is_structurally_valid(algorithm: AlgorithmId, sig: &[u8]) -> (r: bool)
    ensures
        r == provider_signature_structural(algorithm, sig@),
{
    match algorithm {
        AlgorithmId::Ed25519 => ed25519_signature_is_canonical(sig),
        AlgorithmId::EcdsaP256Sha256 => ecdsa_p256_signature_is_well_formed(sig),
    }
}

/// Whether `sig` is a structurally valid signature over `message` that
/// verifies under the public key `public_key` of `algorithm`.
pub open spec fn provider_signature_verifies(
    algorithm: AlgorithmId,
    public_key: Seq<u8>,
    message: Seq<u8>,
    sig: Seq<u8>,
) -> bool {
    &&& provider_signature_structural(algorithm, sig)
    &&& match algorithm {
        AlgorithmId::Ed25519 => ed25519_verifies(public_key, message, sig),
        AlgorithmId::EcdsaP256Sha256 => p256_ecdsa_verifies(public_key, message, sig),
    }
}

/// Verify a provider signature under an admissible public key.
pub fn verify_provider_signature(
    algorithm: AlgorithmId,
    public_key: &[u8],
    message: &[u8],
    sig: &[u8],
) -> (r: bool)
    requires
        provider_public_key_admissible(algorithm, public_key@),
    ensures
        r == provider_signature_verifies(algorithm, public_key@, message@, sig@),
{
    if !provider_signature_is_structurally_valid(algorithm, sig) {
        return false;
    }
    match algorithm {
        AlgorithmId::Ed25519 => verify_ed25519(public_key, message, sig).is_ok(),
        AlgorithmId::EcdsaP256Sha256 => verify_ecdsa_p256_sha256(public_key, message, sig).is_ok(),
    }
}

/// Builder that binds a provider signer to its canonical public-key bytes.
/// The signer itself stays with the caller, which hands each of its outputs
/// to the built key.
pub struct ProviderSigningKeyBuilder {
    algorithm: AlgorithmId,
    public_key_bytes: Vec<u8>,
}

impl ProviderSigningKeyBuilder {
    pub closed spec fn spec_algorithm(&self) -> AlgorithmId {
        self.algorithm
    }

    pub closed spec fn spec_public_key(&self) -> Seq<u8> {
        self.public_key_bytes@
    }

    /// Bind an Ed25519 signer to its 32-octet compressed public key.
    pub fn ed25519(public_key_bytes: &[u8]) -> (r: Self)
        ensures
            r.spec_algorithm() == AlgorithmId::Ed25519,
            r.spec_public_key() == bounded_public_key(AlgorithmId::Ed25519, public_key_bytes@),
    {
        ProviderSigningKeyBuilder {
            algorithm: AlgorithmId::Ed25519,
            public_key_bytes: bounded_public_key_copy(AlgorithmId::Ed25519, public_key_bytes),
        }
    }

    /// Bind a P-256 signer to its 65-octet SEC 1 uncompressed public key.
    pub fn ecdsa_p256_sha256(public_key_bytes: &[u8]) -> (r: Self)
        ensures
            r.spec_algorithm() == AlgorithmId::EcdsaP256Sha256,
            r.spec_public_key() == bounded_public_key(AlgorithmId::EcdsaP256Sha256, public_key_bytes@),
    {
        ProviderSigningKeyBuilder {
            algorithm: AlgorithmId::EcdsaP256Sha256,
            public_key_bytes: bounded_public_key_copy(AlgorithmId::EcdsaP256Sha256, public_key_bytes),
        }
    }

    fn resolve_public_key(self) -> (r: Result<(AlgorithmId, Vec<u8>), ProviderSigningKeyError>)
        ensures
            provider_public_key_admissible(self.spec_algorithm(), self.spec_public_key()) ==> (r matches Ok(
                (a, k),
            ) && a == self.spec_algorithm() && k@ == self.spec_public_key()),
            !provider_public_key_admissible(self.spec_algorithm(), self.spec_public_key()) ==> (r matches Err(
                e,
            ) && e.spec_kind() == ProviderSigningKeyErrorKind::InvalidPublicKey && e.spec_algorithm()
                == self.spec_algorithm()),
    {
        if provider_public_key_is_admissible(self.algorithm, self.public_key_bytes.as_slice()) {
            Ok((self.algorithm, self.public_key_bytes))
        } else {
            Err(
                ProviderSigningKeyError {
                    kind: ProviderSigningKeyErrorKind::InvalidPublicKey,
                    algorithm: self.algorithm,
                },
            )
        }
    }

    /// Build the key that self-verifies every provider signature.
    pub fn build(self) -> (r: Result<ProviderSigningKey, ProviderSigningKeyError>)
        ensures
            provider_public_key_admissible(self.spec_algorithm(), self.spec_public_key()) ==> (r matches Ok(
                k,
            ) && k.spec_algorithm() == self.spec_algorithm() && k.spec_public_key()
                == self.spec_public_key()),
            !provider_public_key_admissible(self.spec_algorithm(), self.spec_public_key()) ==> (r matches Err(
                e,
            ) && e.spec_kind() == ProviderSigningKeyErrorKind::InvalidPublicKey && e.spec_algorithm()
                == self.spec_algorithm()),
    {
        match self.resolve_public_key() {
            Ok((algorithm, public_key)) => Ok(ProviderSigningKey { algorithm, public_key }),
            Err(e) => Err(e),
        }
    }

    /// Build a key that checks only the structure of provider signatures.
    pub fn build_unqualified(self) -> (r: Result<UnqualifiedProviderSigningKey, ProviderSigningKeyError>)
        ensures
            provider_public_key_admissible(self.spec_algorithm(), self.spec_public_key()) ==> (r matches Ok(
                k,
            ) && k.spec_algorithm() == self.spec_algorithm() && k.spec_public_key()
                == self.spec_public_key()),
            !provider_public_key_admissible(self.spec_algorithm(), self.spec_public_key()) ==> (r matches Err(
                e,
            ) && e.spec_kind() == ProviderSigningKeyErrorKind::InvalidPublicKey && e.spec_algorithm()
                == self.spec_algorithm()),
    {
        match self.resolve_public_key() {
            Ok((algorithm, public_key)) => Ok(UnqualifiedProviderSigningKey { algorithm, public_key }),
            Err(e) => Err(e),
        }
    }
}

/// A provider signer whose outputs are self-verified.
pub struct ProviderSigningKey {
    algorithm: AlgorithmId,
    public_key: Vec<u8>,
}

impl ProviderSigningKey {
    pub closed spec fn spec_algorithm(&self) -> AlgorithmId {
        self.algorithm
    }

    pub closed spec fn spec_public_key(&self) -> Seq<u8> {
        self.public_key@
    }

    #[verifier::type_invariant]
    closed spec fn admissible(&self) -> bool {
        provider_public_key_admissible(self.algorithm, self.public_key@)
    }

    /// The algorithm of the bound public key.
    pub fn algorithm(&self) -> (r: AlgorithmId)
        ensures
            r == self.spec_algorithm(),
    {
        self.algorithm
    }

    /// Accept what the signer produced for `message`: a signature that is
    /// structurally valid and verifies under the bound public key. A signer
    /// failure, or any other output, is a key-operation failure.
    pub fn accept_signature(&self, message: &[u8], produced: Option<Vec<u8>>) -> (r: Result<
        Vec<u8>,
        SignError,
    >)
        ensures
            match produced {
                Some(sig) => if provider_signature_verifies(
                    self.spec_algorithm(),
                    self.spec_public_key(),
                    message@,
                    sig@,
                ) {
                    r matches Ok(v) && v@ == sig@
                } else {
                    r == Err::<Vec<u8>, SignError>(SignError::KeyOperationFailure)
                },
                None => r == Err::<Vec<u8>, SignError>(SignError::KeyOperationFailure),
            },
    {
        proof {
            use_type_invariant(self);
        }
        let sig = match produced {
            Some(s) => s,
            None => return Err(SignError::KeyOperationFailure),
        };
        if !verify_provider_signature(self.algorithm, self.public_key.as_slice(), message, sig.as_slice()) {
            return Err(SignError::KeyOperationFailure);
        }
        Ok(sig)
    }
}

/// A provider signer whose outputs are checked only for structure.
pub struct UnqualifiedProviderSigningKey {
    algorithm: AlgorithmId,
    public_key: Vec<u8>,
}

impl UnqualifiedProviderSigningKey {
    pub closed spec fn spec_algorithm(&self) -> AlgorithmId {
        self.algorithm
    }

    pub closed spec fn spec_public_key(&self) -> Seq<u8> {
        self.public_key@
    }

    /// The algorithm of the bound public key.
    pub fn algorithm(&self) -> (r: AlgorithmId)
        ensures
            r == self.spec_algorithm(),
    {
        self.algorithm
    }

    /// Accept what the signer produced when it is structurally valid for the
    /// key's algorithm.
    pub fn accept_signature(&self, produced: Option<Vec<u8>>) -> (r: Result<Vec<u8>, SignError>)
        ensures
            match produced {
                Some(sig) => if provider_signature_structural(self.spec_algorithm(), sig@) {
                    r matches Ok(v) && v@ == sig@
                } else {
                    r == Err::<Vec<u8>, SignError>(SignError::KeyOperationFailure)
                },
                None => r == Err::<Vec<u8>, SignError>(SignError::KeyOperationFailure),
            },
    {
        let sig = match produced {
            Some(s) => s,
            None => return Err(SignError::KeyOperationFailure),
        };
        if !provider_signature_is_structurally_valid(self.algorithm, sig.as_slice()) {
            return Err(SignError::KeyOperationFailure);
        }
        Ok(sig)
    }
}

} // verus!
