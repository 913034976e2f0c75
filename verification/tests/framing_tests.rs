use adatp_core::codec::{
    FLAG_ENCRYPTED, MessageType, Packet, PacketFlags, ParseError,
};
use adatp_core::framing::{FrameError, FramedReader};

fn plain_packet(payload: Vec<u8>) -> Packet {
    Packet::new(MessageType::TextMessage, payload, [7; 16])
}

fn encrypted_packet(payload: Vec<u8>) -> Packet {
    let mut p = Packet::new(MessageType::TextMessage, payload, [7; 16]);
    p.header.flags = PacketFlags { bits: FLAG_ENCRYPTED };
    p.header.sequence = 1;
    p.auth_tag = Some([0x11; 16]);
    p
}

#[test]
fn empty_reader_asks_for_more() {
    let mut reader = FramedReader::new();
    assert!(reader.is_empty());
    assert_eq!(reader.try_next().unwrap(), None);
}

#[test]
fn whole_packet_in_one_chunk() {
    let p = plain_packet(vec![1, 2, 3, 4]);
    let mut reader = FramedReader::new();
    reader.push(&p.to_bytes());
    assert_eq!(reader.try_next().unwrap(), Some(p));
    assert!(reader.is_empty());
}

#[test]
fn one_byte_at_a_time_yields_the_same_packets() {
    let packets = [
        plain_packet(vec![1, 2, 3]),
        encrypted_packet(vec![9; 40]),
        plain_packet(Vec::new()),
    ];
    let mut stream = Vec::new();
    for p in &packets {
        stream.extend_from_slice(&p.to_bytes());
    }

    let mut bulk = FramedReader::new();
    bulk.push(&stream);
    let mut from_bulk = Vec::new();
    while let Some(p) = bulk.try_next().unwrap() {
        from_bulk.push(p);
    }

    let mut trickle = FramedReader::new();
    let mut from_trickle = Vec::new();
    for b in &stream {
        trickle.push(std::slice::from_ref(b));
        while let Some(p) = trickle.try_next().unwrap() {
            from_trickle.push(p);
        }
    }

    assert_eq!(from_bulk, packets.to_vec());
    assert_eq!(from_trickle, packets.to_vec());
}

#[test]
fn partial_reads_resume_without_loss() {
    let p = encrypted_packet(vec![5; 100]);
    let bytes = p.to_bytes();
    let mut reader = FramedReader::new();
    let (a, rest) = bytes.split_at(20);
    let (b, c) = rest.split_at(60);
    reader.push(a);
    assert_eq!(reader.try_next().unwrap(), None);
    reader.push(b);
    assert_eq!(reader.try_next().unwrap(), None);
    reader.push(c);
    assert_eq!(reader.try_next().unwrap(), Some(p));
}

#[test]
fn truncated_header_is_not_a_frame_boundary() {
    let p = plain_packet(vec![1]);
    let bytes = p.to_bytes();
    let mut reader = FramedReader::new();
    reader.push(&bytes[..44]);
    // 44 of 45 header bytes buffered: no packet yet, and the buffer is not at
    // a clean boundary, so a close here is a mid-frame truncation.
    assert_eq!(reader.try_next().unwrap(), None);
    assert!(!reader.is_empty());
    assert_eq!(reader.buffered(), 44);
}

#[test]
fn tag_bytes_are_waited_for() {
    let p = encrypted_packet(vec![2; 10]);
    let bytes = p.to_bytes();
    let mut reader = FramedReader::new();
    // Header and payload but not the tag: the reader keeps waiting.
    reader.push(&bytes[..45 + 10]);
    assert_eq!(reader.try_next().unwrap(), None);
    reader.push(&bytes[45 + 10..]);
    assert_eq!(reader.try_next().unwrap(), Some(p));
}

#[test]
fn two_packets_in_one_chunk_come_out_in_order() {
    let p1 = plain_packet(vec![1; 8]);
    let p2 = encrypted_packet(vec![2; 8]);
    let mut stream = p1.to_bytes();
    stream.extend_from_slice(&p2.to_bytes());
    let mut reader = FramedReader::new();
    reader.push(&stream);
    assert_eq!(reader.try_next().unwrap(), Some(p1));
    assert_eq!(reader.try_next().unwrap(), Some(p2));
    assert_eq!(reader.try_next().unwrap(), None);
}

#[test]
fn oversized_length_is_refused() {
    let p = plain_packet(vec![0; 2000]);
    let mut reader = FramedReader::with_limit(1024);
    reader.push(&p.to_bytes());
    assert_eq!(reader.try_next().unwrap_err(), FrameError::Oversized);
}

#[test]
fn within_limit_passes() {
    let p = plain_packet(vec![0; 1000]);
    let mut reader = FramedReader::with_limit(1024);
    reader.push(&p.to_bytes());
    assert_eq!(reader.try_next().unwrap(), Some(p));
}

#[test]
fn bad_magic_frame_is_malformed() {
    let p = plain_packet(vec![3; 5]);
    let mut bytes = p.to_bytes();
    bytes[1] = 0x00;
    let mut reader = FramedReader::new();
    reader.push(&bytes);
    assert_eq!(
        reader.try_next().unwrap_err(),
        FrameError::Malformed(ParseError::BadMagic)
    );
}
