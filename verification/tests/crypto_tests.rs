use adatp_core::crypto::{Cipher, CryptoError};
use adatp_core::ed25519::{SigningKeyPair, verify};
use adatp_core::kdf::SessionKeys;
use adatp_core::x25519::{KeyPair, diffie_hellman};

#[test]
fn cipher_round_trips_many_sizes() {
    let cipher = Cipher::new([7u8; 32]);
    let nonce = [1u8; 12];
    for len in (0usize..256).chain([1000, 4096, 65_536]) {
        let plaintext: Vec<u8> = (0..len).map(|i| (i % 251) as u8).collect();
        let (ciphertext, tag) = cipher.encrypt(&nonce, &plaintext, &[]).unwrap();
        assert_eq!(ciphertext.len(), plaintext.len());
        let opened = cipher.decrypt(&nonce, &ciphertext, &tag, &[]).unwrap();
        assert_eq!(opened, plaintext);
    }
}

#[test]
fn cipher_binds_associated_data() {
    let cipher = Cipher::new([7u8; 32]);
    let nonce = [2u8; 12];
    let (ciphertext, tag) = cipher.encrypt(&nonce, b"hello", b"aad-one").unwrap();
    assert!(cipher.decrypt(&nonce, &ciphertext, &tag, b"aad-one").is_ok());
    assert_eq!(
        cipher.decrypt(&nonce, &ciphertext, &tag, b"aad-two").unwrap_err(),
        CryptoError::DecryptionError
    );
}

#[test]
fn corrupting_any_ciphertext_byte_fails() {
    let cipher = Cipher::new([9u8; 32]);
    let nonce = [3u8; 12];
    let plaintext = b"a small but meaningful message";
    let (ciphertext, tag) = cipher.encrypt(&nonce, plaintext, &[]).unwrap();
    for i in 0..ciphertext.len() {
        let mut corrupted = ciphertext.clone();
        corrupted[i] ^= 0x01;
        assert_eq!(
            cipher.decrypt(&nonce, &corrupted, &tag, &[]).unwrap_err(),
            CryptoError::DecryptionError
        );
    }
}

#[test]
fn corrupting_any_tag_byte_fails() {
    let cipher = Cipher::new([9u8; 32]);
    let nonce = [3u8; 12];
    let (ciphertext, tag) = cipher.encrypt(&nonce, b"payload", &[]).unwrap();
    for i in 0..16 {
        let mut bad_tag = tag;
        bad_tag[i] ^= 0x80;
        assert_eq!(
            cipher.decrypt(&nonce, &ciphertext, &bad_tag, &[]).unwrap_err(),
            CryptoError::DecryptionError
        );
    }
}

#[test]
fn wrong_key_fails_to_decrypt() {
    let sealer = Cipher::new([1u8; 32]);
    let other = Cipher::new([2u8; 32]);
    let nonce = [4u8; 12];
    let (ciphertext, tag) = sealer.encrypt(&nonce, b"secret", &[]).unwrap();
    assert!(other.decrypt(&nonce, &ciphertext, &tag, &[]).is_err());
}

#[test]
fn hkdf_derivation_is_deterministic() {
    let shared = [0x42u8; 32];
    let salt = [0u8; 32];
    let a = SessionKeys::derive(&shared, &salt);
    let b = SessionKeys::derive(&shared, &salt);
    assert_eq!(a.client_write_key, b.client_write_key);
    assert_eq!(a.server_write_key, b.server_write_key);
    assert_eq!(a.client_iv_root, b.client_iv_root);
    assert_eq!(a.server_iv_root, b.server_iv_root);
}

#[test]
fn hkdf_labels_separate_the_four_secrets() {
    let keys = SessionKeys::derive(&[0x42u8; 32], &[0u8; 32]);
    assert_ne!(keys.client_write_key, keys.server_write_key);
    assert_ne!(keys.client_iv_root, keys.server_iv_root);
    let other = SessionKeys::derive(&[0x43u8; 32], &[0u8; 32]);
    assert_ne!(keys.client_write_key, other.client_write_key);
}

#[test]
fn x25519_shared_secret_agrees_rfc7748_vector() {
    // RFC 7748 section 6.1.
    let alice_sk: [u8; 32] = [
        0x77, 0x07, 0x6d, 0x0a, 0x73, 0x18, 0xa5, 0x7d, 0x3c, 0x16, 0xc1, 0x72, 0x51, 0xb2, 0x66,
        0x45, 0xdf, 0x4c, 0x2f, 0x87, 0xeb, 0xc0, 0x99, 0x2a, 0xb1, 0x77, 0xfb, 0xa5, 0x1d, 0xb9,
        0x2c, 0x2a,
    ];
    let bob_sk: [u8; 32] = [
        0x5d, 0xab, 0x08, 0x7e, 0x62, 0x4a, 0x8a, 0x4b, 0x79, 0xe1, 0x7f, 0x8b, 0x83, 0x80, 0x0e,
        0xe6, 0x6f, 0x3b, 0xb1, 0x29, 0x26, 0x18, 0xb6, 0xfd, 0x1c, 0x2f, 0x8b, 0x27, 0xff, 0x88,
        0xe0, 0xeb,
    ];
    let expected_shared: [u8; 32] = [
        0x4a, 0x5d, 0x9d, 0x5b, 0xa4, 0xce, 0x2d, 0xe1, 0x72, 0x8e, 0x3b, 0xf4, 0x80, 0x35, 0x0f,
        0x25, 0xe0, 0x7e, 0x21, 0xc9, 0x47, 0xd1, 0x9e, 0x33, 0x76, 0xf0, 0x9b, 0x3c, 0x1e, 0x16,
        0x17, 0x42,
    ];
    let alice = KeyPair::from_secret(alice_sk);
    let bob = KeyPair::from_secret(bob_sk);
    let alice_public = alice.public_bytes();
    let bob_public = bob.public_bytes();
    let s1 = diffie_hellman(alice, &bob_public).unwrap();
    let s2 = diffie_hellman(bob, &alice_public).unwrap();
    assert_eq!(s1, expected_shared);
    assert_eq!(s2, expected_shared);
}

#[test]
fn diffie_hellman_rejects_short_keys() {
    let kp = KeyPair::from_secret([1u8; 32]);
    assert_eq!(diffie_hellman(kp, &[0u8; 31]).unwrap_err(), CryptoError::InvalidKey);
}

#[test]
fn generated_keypairs_differ() {
    let a = KeyPair::generate();
    let b = KeyPair::generate();
    assert_ne!(a.public_bytes(), b.public_bytes());
}

#[test]
fn ed25519_sign_verify_round_trip() {
    let identity = SigningKeyPair::generate();
    let message = b"attested bytes";
    let signature = identity.sign(message);
    let public = identity.public_key_bytes();
    assert!(verify(&public, message, &signature).is_ok());
}

#[test]
fn ed25519_rejects_wrong_message_and_key() {
    let identity = SigningKeyPair::generate();
    let signature = identity.sign(b"message one");
    let public = identity.public_key_bytes();
    assert_eq!(
        verify(&public, b"message two", &signature).unwrap_err(),
        CryptoError::SignatureError
    );
    let other = SigningKeyPair::generate();
    assert!(verify(&other.public_key_bytes(), b"message one", &signature).is_err());
}

#[test]
fn ed25519_rejects_bad_lengths() {
    let identity = SigningKeyPair::generate();
    let signature = identity.sign(b"m");
    let public = identity.public_key_bytes();
    assert_eq!(verify(&public[..31], b"m", &signature).unwrap_err(), CryptoError::InvalidKey);
    assert_eq!(verify(&public, b"m", &signature[..63]).unwrap_err(), CryptoError::InvalidKey);
}
