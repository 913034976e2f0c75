use adatp_core::codec::{FLAG_ENCRYPTED, MessageType, Packet, PacketFlags};
use adatp_core::crypto::CryptoError;
use adatp_core::kdf::SessionKeys;
use adatp_core::session::{Role, SecureSession};

fn test_keys() -> SessionKeys {
    SessionKeys::derive(&[0x42u8; 32], &[0u8; 32])
}

fn matched_pair() -> (SecureSession, SecureSession) {
    (SecureSession::new(Role::Client, test_keys()), SecureSession::new(Role::Server, test_keys()))
}

fn encrypted_packet(ciphertext: Vec<u8>, tag: [u8; 16], seq: u64) -> Packet {
    let mut p = Packet::new(MessageType::TextMessage, ciphertext, [1; 16]);
    p.header.flags = PacketFlags { bits: FLAG_ENCRYPTED };
    p.header.sequence = seq;
    p.auth_tag = Some(tag);
    p
}

#[test]
fn sequences_start_at_one() {
    let (client, server) = matched_pair();
    assert_eq!(client.my_sequence(), 1);
    assert_eq!(client.peer_sequence(), 1);
    assert_eq!(server.my_sequence(), 1);
    assert_eq!(server.peer_sequence(), 1);
}

#[test]
fn client_to_server_round_trip() {
    let (mut client, mut server) = matched_pair();
    let plaintext = b"hello over the secure channel";
    let (ciphertext, tag, seq) = client.encrypt(plaintext).unwrap();
    assert_eq!(seq, 1);
    assert_eq!(client.my_sequence(), 2);
    let packet = encrypted_packet(ciphertext, tag, seq);
    let opened = server.decrypt(&packet).unwrap();
    assert_eq!(opened, plaintext);
    assert_eq!(server.peer_sequence(), 2);
}

#[test]
fn server_to_client_round_trip() {
    let (mut client, mut server) = matched_pair();
    let (ciphertext, tag, seq) = server.encrypt(b"from the server").unwrap();
    let packet = encrypted_packet(ciphertext, tag, seq);
    assert_eq!(client.decrypt(&packet).unwrap(), b"from the server");
}

#[test]
fn many_payload_sizes_round_trip() {
    let (mut client, mut server) = matched_pair();
    for len in 0usize..600 {
        let plaintext: Vec<u8> = (0..len).map(|i| (i * 31 % 256) as u8).collect();
        let (ciphertext, tag, seq) = client.encrypt(&plaintext).unwrap();
        let packet = encrypted_packet(ciphertext, tag, seq);
        assert_eq!(server.decrypt(&packet).unwrap(), plaintext);
    }
    assert_eq!(client.my_sequence(), 601);
    assert_eq!(server.peer_sequence(), 601);
}

#[test]
fn sequence_increments_per_encryption() {
    let (mut client, _) = matched_pair();
    for expected in 1u64..=5 {
        let (_, _, seq) = client.encrypt(b"x").unwrap();
        assert_eq!(seq, expected);
    }
    assert_eq!(client.my_sequence(), 6);
}

#[test]
fn stale_sequence_is_tolerated_but_never_moves_backward() {
    let (mut client, mut server) = matched_pair();
    let mut packets = Vec::new();
    for _ in 0..5 {
        let (c, t, s) = client.encrypt(b"tick").unwrap();
        packets.push(encrypted_packet(c, t, s));
    }
    for p in &packets {
        server.decrypt(p).unwrap();
    }
    assert_eq!(server.peer_sequence(), 6);
    // Replay the packet with sequence 3: it still decrypts (reliable-stream
    // tolerance) but the expected sequence does not move backward.
    let replayed = &packets[2];
    assert_eq!(server.decrypt(replayed).unwrap(), b"tick");
    assert_eq!(server.peer_sequence(), 6);
}

#[test]
fn tampered_tag_fails_and_leaves_state() {
    let (mut client, mut server) = matched_pair();
    let (ciphertext, mut tag, seq) = client.encrypt(b"integrity matters").unwrap();
    tag[0] ^= 0x01;
    let packet = encrypted_packet(ciphertext, tag, seq);
    assert_eq!(server.decrypt(&packet).unwrap_err(), CryptoError::DecryptionError);
    assert_eq!(server.peer_sequence(), 1);
}

#[test]
fn tampered_ciphertext_fails() {
    let (mut client, mut server) = matched_pair();
    let (mut ciphertext, tag, seq) = client.encrypt(b"integrity matters").unwrap();
    ciphertext[3] ^= 0xFF;
    let packet = encrypted_packet(ciphertext, tag, seq);
    assert_eq!(server.decrypt(&packet).unwrap_err(), CryptoError::DecryptionError);
}

#[test]
fn tampered_sequence_fails() {
    let (mut client, mut server) = matched_pair();
    let (ciphertext, tag, seq) = client.encrypt(b"integrity matters").unwrap();
    let packet = encrypted_packet(ciphertext, tag, seq ^ 0x0100);
    assert_eq!(server.decrypt(&packet).unwrap_err(), CryptoError::DecryptionError);
    assert_eq!(server.peer_sequence(), 1);
}

#[test]
fn cross_direction_keys_are_isolated() {
    // A frame sealed with the client write key must not open as if the
    // server had sent it.
    let (mut client, _) = matched_pair();
    let (ciphertext, tag, seq) = client.encrypt(b"direction matters").unwrap();
    let packet = encrypted_packet(ciphertext, tag, seq);
    // A second client decrypts with the server write key: wrong direction.
    let mut other_client = SecureSession::new(Role::Client, test_keys());
    assert!(other_client.decrypt(&packet).is_err());
}

#[test]
fn cleartext_frames_pass_through() {
    let (_, mut server) = matched_pair();
    let packet = Packet::new(MessageType::Ping, vec![1, 2, 3], [0; 16]);
    assert_eq!(server.decrypt(&packet).unwrap(), vec![1, 2, 3]);
    assert_eq!(server.peer_sequence(), 1);
}

#[test]
fn missing_tag_is_an_encryption_error() {
    let (_, mut server) = matched_pair();
    let mut packet = Packet::new(MessageType::TextMessage, vec![1, 2, 3], [0; 16]);
    packet.header.flags = PacketFlags { bits: FLAG_ENCRYPTED };
    packet.header.sequence = 1;
    // ENCRYPTED is set but no tag is attached.
    assert_eq!(server.decrypt(&packet).unwrap_err(), CryptoError::EncryptionError);
}

#[test]
fn compute_iv_mixes_only_the_trailing_bytes() {
    let keys = test_keys();
    let session = SecureSession::new(Role::Client, keys.clone());
    let iv0 = session.compute_iv(0, Role::Client);
    assert_eq!(iv0, keys.client_iv_root);
    let iv1 = session.compute_iv(1, Role::Client);
    assert_eq!(iv1[0..4], keys.client_iv_root[0..4]);
    assert_eq!(iv1[4], keys.client_iv_root[4] ^ 0x01);
    assert_eq!(iv1[5..12], keys.client_iv_root[5..12]);
}

#[test]
fn distinct_sequences_give_distinct_ivs() {
    let session = SecureSession::new(Role::Client, test_keys());
    let sequences = [0u64, 1, 2, 255, 256, 0xFFFF, 0x1_0000, u64::MAX];
    for (i, &a) in sequences.iter().enumerate() {
        for &b in &sequences[i + 1..] {
            assert_ne!(session.compute_iv(a, Role::Client), session.compute_iv(b, Role::Client));
        }
    }
}

#[test]
fn directions_use_their_own_roots() {
    let keys = test_keys();
    let session = SecureSession::new(Role::Client, keys);
    assert_ne!(session.compute_iv(1, Role::Client), session.compute_iv(1, Role::Server));
}
