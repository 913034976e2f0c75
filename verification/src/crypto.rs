//! AEAD cipher: AES-256-GCM with a 96-bit nonce and a split 16-byte tag.

use aes_gcm::Aes256Gcm;
use aes_gcm::aead::Aead;
use aes_gcm::aead::KeyInit;
use aes_gcm::aead::Payload;
use crate::wire::read_bytes_16;
use vstd::prelude::*;

verus! {

/// The error kinds the cryptographic operations surface.
#[derive(Clone, Copy, Debug, PartialEq, Eq, Structural)]
pub enum CryptoError {
    /// The AEAD primitive refused to seal (inputs beyond its size bounds).
    EncryptionError,
    /// Any verification failure while opening a sealed payload.
    DecryptionError,
    /// A public key of the wrong length or an undecodable key.
    InvalidKey,
    /// A signature that does not verify.
    SignatureError,
}

/// Largest plaintext AES-GCM seals (2^36 bytes).
pub const GCM_P_MAX: u64 = 0x10_0000_0000;

/// Largest associated data AES-GCM binds (2^36 bytes).
pub const GCM_A_MAX: u64 = 0x10_0000_0000;

/// What AES-256-GCM sealing returns: ciphertext with the 16-byte tag
/// appended, as a function of key, nonce, plaintext and associated data.
pub uninterp spec fn aes_gcm_seal(key: Seq<u8>, nonce: Seq<u8>, plaintext: Seq<u8>, aad: Seq<u8>) -> Seq<u8>;

/// What AES-256-GCM opening returns on tagged ciphertext: the plaintext when
/// the tag verifies, nothing otherwise.
pub uninterp spec fn aes_gcm_open(key: Seq<u8>, nonce: Seq<u8>, data: Seq<u8>, aad: Seq<u8>) -> Option<Seq<u8>>;

/// Relies on aes_gcm::Aes256Gcm through aead::Aead::encrypt: sealing is a
/// pure function of key, nonce, plaintext and associated data; it succeeds
/// exactly when both inputs are within the GCM size bounds, appends the
/// 16-byte tag to the ciphertext, and what it sealed, opening under the same
/// key, nonce and associated data gives back.
#[verifier::external_body]
fn aead_seal(key: &[u8; 32], nonce: &[u8; 12], plaintext: &[u8], aad: &[u8]) -> (r: Result<
    Vec<u8>,
    CryptoError,
>)
    ensures
        r is Ok <==> (plaintext@.len() <= GCM_P_MAX && aad@.len() <= GCM_A_MAX),
        r is Ok ==> r->Ok_0@ == aes_gcm_seal(key@, nonce@, plaintext@, aad@),
        r is Ok ==> r->Ok_0@.len() == plaintext@.len() + 16,
        r is Ok ==> aes_gcm_open(key@, nonce@, r->Ok_0@, aad@) == Some(plaintext@),
        r is Err ==> r->Err_0 == CryptoError::EncryptionError,
{
    let cipher = Aes256Gcm::new(key.into());
    let nonce = aes_gcm::Nonce::from_slice(nonce);
    cipher.encrypt(nonce, Payload { msg: plaintext, aad }).map_err(
        |_| CryptoError::EncryptionError,
    )
}

/// Relies on aes_gcm::Aes256Gcm through aead::Aead::decrypt: opening is a
/// pure function of key, nonce, tagged ciphertext and associated data; it
/// returns the plaintext, 16 bytes shorter than its input, exactly when the
/// tag verifies.
#[verifier::external_body]
fn aead_open(key: &[u8; 32], nonce: &[u8; 12], data: &[u8], aad: &[u8]) -> (r: Result<
    Vec<u8>,
    CryptoError,
>)
    ensures
        r is Ok <==> aes_gcm_open(key@, nonce@, data@, aad@) is Some,
        r is Ok ==> Some(r->Ok_0@) == aes_gcm_open(key@, nonce@, data@, aad@),
        r is Ok ==> r->Ok_0@.len() + 16 == data@.len(),
        r is Err ==> r->Err_0 == CryptoError::DecryptionError,
{
    let cipher = Aes256Gcm::new(key.into());
    let nonce = aes_gcm::Nonce::from_slice(nonce);
    cipher.decrypt(nonce, Payload { msg: data, aad }).map_err(|_| CryptoError::DecryptionError)
}

/// AES-256-GCM under one fixed key.
pub struct Cipher {
    key: [u8; 32],
}

impl Cipher {
    /// The key this cipher seals and opens under.
    pub closed spec fn spec_key(self) -> Seq<u8> {
        self.key@
    }

    pub fn new(key: [u8; 32]) -> (r: Self)
        ensures
            r.spec_key() == key@,
    {
        Cipher { key }
    }

    /// Seals a plaintext and hands ciphertext and tag back separately, so the
    /// tag can travel in the frame's dedicated field.
    pub fn encrypt(&self, nonce_bytes: &[u8; 12], plain_text: &[u8], aad: &[u8]) -> (r: Result<
        (Vec<u8>, [u8; 16]),
        CryptoError,
    >)
        ensures
            r is Ok <==> (plain_text@.len() <= GCM_P_MAX && aad@.len() <= GCM_A_MAX),
            r is Ok ==> ({
                let sealed = aes_gcm_seal(self.spec_key(), nonce_bytes@, plain_text@, aad@);
                &&& r->Ok_0.0@ == sealed.subrange(0, plain_text@.len() as int)
                &&& r->Ok_0.1@ == sealed.subrange(plain_text@.len() as int, sealed.len() as int)
                &&& r->Ok_0.0@ + r->Ok_0.1@ == sealed
                &&& r->Ok_0.0@.len() == plain_text@.len()
                &&& aes_gcm_open(self.spec_key(), nonce_bytes@, sealed, aad@) == Some(
                    plain_text@,
                )
            }),
            r is Err ==> r->Err_0 == CryptoError::EncryptionError,
    {
        let mut sealed = aead_seal(&self.key, nonce_bytes, plain_text, aad)?;
        let tag_start = sealed.len() - 16;
        let tag_vec = sealed.split_off(tag_start);
        let tag = read_bytes_16(tag_vec.as_slice(), 0);
        proof {
            let whole = aes_gcm_seal(self.spec_key(), nonce_bytes@, plain_text@, aad@);
            assert(sealed@ + tag@ =~= whole);
        }
        Ok((sealed, tag))
    }

    /// Rejoins ciphertext and tag and opens them; any verification failure is
    /// `DecryptionError`.
    pub fn decrypt(&self, nonce_bytes: &[u8; 12], ciphertext: &[u8], tag: &[u8; 16], aad: &[u8])
        -> (r: Result<Vec<u8>, CryptoError>)
        ensures
            r is Ok <==> aes_gcm_open(self.spec_key(), nonce_bytes@, ciphertext@ + tag@, aad@)
                is Some,
            r is Ok ==> Some(r->Ok_0@) == aes_gcm_open(
                self.spec_key(),
                nonce_bytes@,
                ciphertext@ + tag@,
                aad@,
            ),
            r is Err ==> r->Err_0 == CryptoError::DecryptionError,
    {
        let mut full: Vec<u8> = Vec::new();
        full.extend_from_slice(ciphertext);
        full.extend_from_slice(tag.as_slice());
        proof {
            assert(full@ =~= ciphertext@ + tag@);
        }
        aead_open(&self.key, nonce_bytes, full.as_slice(), aad)
    }
}

} // verus!
