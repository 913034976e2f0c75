//! Ed25519 signatures: long-lived signing identities and detached-signature
//! verification. Kept beside the handshake; not wired into it.

use crate::crypto::CryptoError;
use crate::rng::random_bytes_32;
use crate::wire::read_bytes;
use ed25519_dalek::Signature;
use ed25519_dalek::Signer;
use ed25519_dalek::SigningKey;
use ed25519_dalek::Verifier;
use ed25519_dalek::VerifyingKey;
use vstd::prelude::*;

verus! {

/// The 32 public-key bytes determined by a 32-byte signing seed.
pub uninterp spec fn spec_ed25519_public(seed: Seq<u8>) -> Seq<u8>;

/// The 64 signature bytes a seed produces over a message (Ed25519 signing is
/// deterministic).
pub uninterp spec fn spec_ed25519_sign(seed: Seq<u8>, message: Seq<u8>) -> Seq<u8>;

/// True of the 32-byte strings that decode to a verifying key.
pub uninterp spec fn spec_ed25519_pk_valid(pk: Seq<u8>) -> bool;

/// True when a signature verifies over a message under a public key.
pub uninterp spec fn spec_ed25519_verifies(pk: Seq<u8>, message: Seq<u8>, sig: Seq<u8>) -> bool;

/// Relies on ed25519_dalek::SigningKey::verifying_key: the public key is a
/// pure function of the seed, and the bytes it serializes to decode back to a
/// verifying key.
#[verifier::external_body]
fn ed25519_public(seed: &[u8; 32]) -> (r: [u8; 32])
    ensures
        r@ == spec_ed25519_public(seed@),
        spec_ed25519_pk_valid(r@),
{
    SigningKey::from_bytes(seed).verifying_key().to_bytes()
}

/// Relies on ed25519_dalek::SigningKey through Signer::sign: Ed25519 signing
/// is a deterministic function of seed and message, and the signature it
/// yields verifies under the seed's public key.
#[verifier::external_body]
fn ed25519_sign(seed: &[u8; 32], message: &[u8]) -> (r: [u8; 64])
    ensures
        r@ == spec_ed25519_sign(seed@, message@),
        spec_ed25519_verifies(spec_ed25519_public(seed@), message@, r@),
{
    SigningKey::from_bytes(seed).sign(message).to_bytes()
}

/// Relies on ed25519_dalek::VerifyingKey::from_bytes and Verifier::verify:
/// decoding fails exactly on byte strings that are no canonical key, and
/// verification is a pure function of key, message and signature.
#[verifier::external_body]
fn ed25519_verify(pk: &[u8; 32], message: &[u8], sig: &[u8; 64]) -> (r: Result<(), CryptoError>)
    ensures
        r is Ok <==> (spec_ed25519_pk_valid(pk@) && spec_ed25519_verifies(pk@, message@, sig@)),
        r is Err && !spec_ed25519_pk_valid(pk@) ==> r->Err_0 == CryptoError::InvalidKey,
        r is Err && spec_ed25519_pk_valid(pk@) ==> r->Err_0 == CryptoError::SignatureError,
{
    let key = VerifyingKey::from_bytes(pk).map_err(|_| CryptoError::InvalidKey)?;
    let signature = Signature::from_bytes(sig);
    key.verify(message, &signature).map_err(|_| CryptoError::SignatureError)
}

/// A long-lived signing identity, held as its 32-byte seed.
pub struct SigningKeyPair {
    seed: [u8; 32],
}

impl SigningKeyPair {
    /// The seed this identity signs with.
    pub closed spec fn spec_seed(self) -> Seq<u8> {
        self.seed@
    }

    /// A fresh identity from operating-system randomness.
    pub fn generate() -> Self {
        SigningKeyPair { seed: random_bytes_32() }
    }

    /// Signs a message; the signature verifies under this identity's public
    /// key.
    pub fn sign(&self, message: &[u8]) -> (r: [u8; 64])
        ensures
            r@ == spec_ed25519_sign(self.spec_seed(), message@),
            spec_ed25519_verifies(spec_ed25519_public(self.spec_seed()), message@, r@),
    {
        ed25519_sign(&self.seed, message)
    }

    /// The public half of the identity, as it travels on the wire.
    pub fn public_key_bytes(&self) -> (r: [u8; 32])
        ensures
            r@ == spec_ed25519_public(self.spec_seed()),
            spec_ed25519_pk_valid(r@),
    {
        ed25519_public(&self.seed)
    }
}

/// Verifies a detached signature. Slices of the wrong length are refused as
/// `InvalidKey`; an undecodable key is `InvalidKey`; a signature that does
/// not verify is `SignatureError`.
pub fn verify(public_key: &[u8], message: &[u8], signature: &[u8]) -> (r: Result<(), CryptoError>)
    ensures
        r is Ok <==> (public_key@.len() == 32 && signature@.len() == 64
            && spec_ed25519_pk_valid(public_key@) && spec_ed25519_verifies(
            public_key@,
            message@,
            signature@,
        )),
        (public_key@.len() != 32 || signature@.len() != 64) ==> r == Err::<(), CryptoError>(
            CryptoError::InvalidKey,
        ),
        r is Err && public_key@.len() == 32 && signature@.len() == 64 && !spec_ed25519_pk_valid(
            public_key@,
        ) ==> r->Err_0 == CryptoError::InvalidKey,
        r is Err && public_key@.len() == 32 && signature@.len() == 64 && spec_ed25519_pk_valid(
            public_key@,
        ) ==> r->Err_0 == CryptoError::SignatureError,
{
    if public_key.len() != 32 || signature.len() != 64 {
        return Err(CryptoError::InvalidKey);
    }
    let pk: [u8; 32] = read_bytes(public_key, 0);
    let sig: [u8; 64] = read_bytes(signature, 0);
    proof {
        assert(pk@ =~= public_key@);
        assert(sig@ =~= signature@);
    }
    ed25519_verify(&pk, message, &sig)
}

} // verus!
