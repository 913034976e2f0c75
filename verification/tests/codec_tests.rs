use adatp_core::codec::{
    FLAG_COMPRESSED, FLAG_ENCRYPTED, FLAG_RELIABLE, HEADER_SIZE, MAGIC_NUMBER, MessageType, Packet,
    PacketFlags, PacketHeader, ParseError, Serializer,
};

fn sample_packet(payload: Vec<u8>, encrypted: bool) -> Packet {
    let length = payload.len() as u32;
    Packet {
        header: PacketHeader {
            magic: MAGIC_NUMBER,
            version: 1,
            flags: PacketFlags { bits: if encrypted { FLAG_ENCRYPTED } else { 0 } },
            length,
            sequence: 7,
            msg_type: MessageType::TextMessage,
            timestamp: 1_700_000_000_123,
            session_id: [0xAB; 16],
        },
        payload,
        auth_tag: if encrypted { Some([0xCD; 16]) } else { None },
    }
}

#[test]
fn round_trip_plain_packet() {
    let p = sample_packet(vec![1, 2, 3, 4, 5], false);
    let bytes = p.to_bytes();
    let q = Packet::from_bytes(&bytes).unwrap();
    assert_eq!(p, q);
}

#[test]
fn round_trip_encrypted_packet() {
    let p = sample_packet(vec![9; 100], true);
    let bytes = p.to_bytes();
    let q = Packet::from_bytes(&bytes).unwrap();
    assert_eq!(p, q);
}

#[test]
fn round_trip_empty_payload() {
    let p = sample_packet(Vec::new(), false);
    let bytes = p.to_bytes();
    assert_eq!(bytes.len(), 45);
    let q = Packet::from_bytes(&bytes).unwrap();
    assert_eq!(p, q);
}

#[test]
fn serialized_length_is_exact() {
    for (len, encrypted) in [(0usize, false), (0, true), (17, false), (17, true), (1000, true)] {
        let p = sample_packet(vec![0x5A; len], encrypted);
        let bytes = p.to_bytes();
        let expected = 45 + len + if encrypted { 16 } else { 0 };
        assert_eq!(bytes.len(), expected);
    }
}

#[test]
fn serialized_frame_starts_with_adat_magic() {
    let p = sample_packet(vec![1, 2, 3], false);
    let bytes = p.to_bytes();
    assert_eq!(&bytes[0..4], &[0x54, 0x41, 0x44, 0x41]);
}

#[test]
fn serializer_matches_to_bytes() {
    let p = sample_packet(vec![4, 5, 6], true);
    assert_eq!(Serializer::serialize(&p), p.to_bytes());
}

#[test]
fn header_fields_travel_in_order() {
    let p = sample_packet(vec![0xEE; 3], false);
    let bytes = p.to_bytes();
    assert_eq!(bytes[4], 1); // version
    assert_eq!(u16::from_le_bytes([bytes[5], bytes[6]]), 0); // flags
    assert_eq!(u32::from_le_bytes([bytes[7], bytes[8], bytes[9], bytes[10]]), 3); // length
    let mut seq = [0u8; 8];
    seq.copy_from_slice(&bytes[11..19]);
    assert_eq!(u64::from_le_bytes(seq), 7);
    assert_eq!(u16::from_le_bytes([bytes[19], bytes[20]]), 0x0020); // TextMessage
    assert_eq!(&bytes[29..45], &[0xAB; 16]);
}

#[test]
fn too_short_is_rejected() {
    let r = Packet::from_bytes(&[0u8; 44]);
    assert_eq!(r.unwrap_err(), ParseError::TooShort);
}

#[test]
fn bad_magic_is_rejected() {
    let p = sample_packet(vec![1], false);
    let mut bytes = p.to_bytes();
    bytes[0] = 0x00;
    assert_eq!(Packet::from_bytes(&bytes).unwrap_err(), ParseError::BadMagic);
}

#[test]
fn incomplete_payload_is_rejected() {
    let p = sample_packet(vec![1, 2, 3, 4], false);
    let bytes = p.to_bytes();
    let r = Packet::from_bytes(&bytes[..bytes.len() - 2]);
    assert_eq!(r.unwrap_err(), ParseError::IncompletePayload);
}

#[test]
fn encrypted_without_tag_is_missing_tag() {
    let p = sample_packet(vec![1, 2, 3, 4], true);
    let bytes = p.to_bytes();
    // Drop the 16 trailing tag bytes.
    let r = Packet::from_bytes(&bytes[..bytes.len() - 16]);
    assert_eq!(r.unwrap_err(), ParseError::MissingTag);
}

#[test]
fn trailing_bytes_are_left_to_the_caller() {
    let p = sample_packet(vec![8, 8, 8], false);
    let mut bytes = p.to_bytes();
    bytes.extend_from_slice(&[0xFF; 10]);
    let q = Packet::from_bytes(&bytes).unwrap();
    assert_eq!(p, q);
}

#[test]
fn unknown_flag_bits_are_truncated() {
    let f = PacketFlags::from_bits_truncate(0xFFFF);
    assert_eq!(f.bits(), FLAG_ENCRYPTED | FLAG_COMPRESSED | FLAG_RELIABLE);
    let p = sample_packet(vec![1], false);
    let mut bytes = p.to_bytes();
    bytes[5] = 0xF8; // undefined bits only
    let q = Packet::from_bytes(&bytes).unwrap();
    assert_eq!(q.header.flags.bits(), 0);
}

#[test]
fn unknown_msg_type_codes_decode_to_unknown() {
    for code in [0x0005u16, 0x0099, 0x1234, 0xFFFE] {
        assert_eq!(MessageType::from(code), MessageType::Unknown);
    }
    assert_eq!(MessageType::from(0xFFFF), MessageType::Unknown);
}

#[test]
fn unknown_round_trips_as_ffff() {
    let mut p = sample_packet(vec![], false);
    p.header.msg_type = MessageType::from(0x0777); // undefined code
    assert_eq!(p.header.msg_type, MessageType::Unknown);
    let bytes = p.to_bytes();
    assert_eq!(u16::from_le_bytes([bytes[19], bytes[20]]), 0xFFFF);
    let q = Packet::from_bytes(&bytes).unwrap();
    assert_eq!(q.header.msg_type, MessageType::Unknown);
}

#[test]
fn known_codes_round_trip() {
    let cases: [(MessageType, u16); 8] = [
        (MessageType::HandshakeInit, 0x0001),
        (MessageType::HandshakeResponse, 0x0002),
        (MessageType::HandshakeComplete, 0x0003),
        (MessageType::Ping, 0x0070),
        (MessageType::Pong, 0x0071),
        (MessageType::Disconnect, 0x00FF),
        (MessageType::JoinRoom, 0x00A0),
        (MessageType::RoomJoined, 0x00A1),
    ];
    for (m, code) in cases {
        assert_eq!(m.code(), code);
        assert_eq!(MessageType::from(code), m);
    }
}

#[test]
fn packet_new_fills_the_documented_fields() {
    let p = Packet::new(MessageType::Ping, vec![1, 2], [3; 16]);
    assert_eq!(p.header.magic, MAGIC_NUMBER);
    assert_eq!(p.header.version, 1);
    assert_eq!(p.header.flags.bits(), 0);
    assert_eq!(p.header.length, 2);
    assert_eq!(p.header.sequence, 0);
    assert_eq!(p.header.session_id, [3; 16]);
    assert!(p.auth_tag.is_none());
}

#[test]
fn default_header_is_a_fresh_ping() {
    let h = PacketHeader::default();
    assert_eq!(h.magic, MAGIC_NUMBER);
    assert_eq!(h.version, 1);
    assert_eq!(h.flags.bits(), 0);
    assert_eq!(h.length, 0);
    assert_eq!(h.sequence, 0);
    assert_eq!(h.msg_type, MessageType::Ping);
    assert_eq!(h.session_id, [0; 16]);
    assert_eq!(HEADER_SIZE, 45);
}
