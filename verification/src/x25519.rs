//! Ephemeral Diffie-Hellman over Curve25519. Each peer mints a fresh
//! keypair; the 32-byte public key travels in the handshake payloads; the
//! shared secret is consumed once to derive the session keys.

use crate::crypto::CryptoError;
use crate::rng::random_bytes_32;
use crate::wire::read_bytes;
use vstd::prelude::*;

verus! {

/// The canonical Curve25519 basepoint encoding: 9 followed by 31 zeros.
pub open spec fn spec_basepoint() -> Seq<u8> {
    Seq::new(32, |i: int| if i == 0 { 9u8 } else { 0u8 })
}

/// What RFC 7748 X25519 scalar multiplication returns for a 32-byte scalar
/// and a 32-byte point encoding.
pub uninterp spec fn spec_x25519(k: Seq<u8>, u: Seq<u8>) -> Seq<u8>;

/// Relies on x25519_dalek::x25519, RFC 7748 scalar multiplication: a pure
/// function of scalar and point, with the Diffie-Hellman property that both
/// peers of an exchange compute the same secret — multiplying a point that is
/// `b` times the basepoint by `k` equals multiplying the point `k` times the
/// basepoint by `b`.
#[verifier::external_body]
fn x25519_mul(k: &[u8; 32], u: &[u8; 32]) -> (r: [u8; 32])
    ensures
        r@ == spec_x25519(k@, u@),
        forall|b: Seq<u8>|
            u@ == #[trigger] spec_x25519(b, spec_basepoint()) ==> r@ == spec_x25519(
                b,
                spec_x25519(k@, spec_basepoint()),
            ),
{
    x25519_dalek::x25519(*k, *u)
}

/// The basepoint as bytes.
fn basepoint() -> (r: [u8; 32])
    ensures
        r@ == spec_basepoint(),
{
    broadcast use vstd::array::group_array_axioms;

    let mut r: [u8; 32] = [0; 32];
    r[0] = 9;
    proof {
        assert(r@ =~= spec_basepoint());
    }
    r
}

/// An ephemeral Curve25519 keypair. The secret stays inside; the public key
/// is what travels in handshake payloads.
pub struct KeyPair {
    secret: [u8; 32],
    pub public: [u8; 32],
}

impl KeyPair {
    /// The scalar this keypair holds.
    pub closed spec fn spec_secret(self) -> Seq<u8> {
        self.secret@
    }

    /// The public key bytes this keypair carries.
    pub closed spec fn spec_public(self) -> Seq<u8> {
        self.public@
    }

    /// The public key is the secret's scalar multiple of the basepoint.
    pub open spec fn wf(self) -> bool {
        self.spec_public() == spec_x25519(self.spec_secret(), spec_basepoint())
    }

    /// The public key, ready to travel in a handshake payload.
    pub fn public_bytes(&self) -> (r: [u8; 32])
        ensures
            r@ == self.spec_public(),
    {
        self.public
    }

    /// A fresh keypair from operating-system randomness.
    pub fn generate() -> (r: Self)
        ensures
            r.wf(),
    {
        Self::from_secret(random_bytes_32())
    }

    /// The keypair determined by a given scalar.
    pub fn from_secret(secret: [u8; 32]) -> (r: Self)
        ensures
            r.wf(),
            r.spec_secret() == secret@,
    {
        let public = x25519_mul(&secret, &basepoint());
        KeyPair { secret, public }
    }
}

/// Consumes the local keypair and combines its secret with the peer's public
/// key. A peer key of any length other than 32 is refused as `InvalidKey`.
/// When the peer key is itself a Curve25519 public key, both sides of the
/// exchange obtain the same 32 bytes.
pub fn diffie_hellman(secret: KeyPair, peer_public: &[u8]) -> (r: Result<[u8; 32], CryptoError>)
    requires
        secret.wf(),
    ensures
        r is Ok <==> peer_public@.len() == 32,
        r is Ok ==> r->Ok_0@ == spec_x25519(secret.spec_secret(), peer_public@),
        r is Ok ==> forall|b: Seq<u8>|
            peer_public@ == #[trigger] spec_x25519(b, spec_basepoint()) ==> r->Ok_0@
                == spec_x25519(b, secret.spec_public()),
        r is Err ==> r->Err_0 == CryptoError::InvalidKey,
{
    if peer_public.len() != 32 {
        return Err(CryptoError::InvalidKey);
    }
    let arr: [u8; 32] = read_bytes(peer_public, 0);
    proof {
        assert(arr@ =~= peer_public@);
    }
    Ok(x25519_mul(&secret.secret, &arr))
}

} // verus!
