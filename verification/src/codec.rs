//! Packet codec: the fixed-layout binary frame of the protocol.
//!
//! A frame is `45` header bytes, then `length` payload bytes, then a 16-byte
//! authentication tag iff the `ENCRYPTED` flag is set. All multi-byte
//! integers are little-endian.

use crate::clock::now_millis;
use crate::wire::spec_le16;
use crate::wire::spec_le32;
use crate::wire::spec_le64;
use crate::wire::spec_u16_of;
use crate::wire::spec_u32_of;
use crate::wire::spec_u64_of;
use crate::wire::lemma_le16_inverse;
use crate::wire::lemma_le32_inverse;
use crate::wire::lemma_le64_inverse;
use crate::wire::push_le16;
use crate::wire::push_le32;
use crate::wire::push_le64;
use crate::wire::read_le16;
use crate::wire::read_le32;
use crate::wire::read_le64;
use crate::wire::read_bytes_16;
use vstd::prelude::*;

verus! {

/// Little-endian constant "ADAT" that opens every frame.
pub const MAGIC_NUMBER: u32 = 0x41444154;

/// Fixed header size: magic 4, version 1, flags 2, length 4, sequence 8,
/// msg_type 2, timestamp 8, session_id 16.
pub const HEADER_SIZE: usize = 4 + 1 + 2 + 4 + 8 + 2 + 8 + 16;

/// Payload is carried encrypted and a 16-byte tag trails it.
pub const FLAG_ENCRYPTED: u16 = 0x0001;

/// Payload is compressed.
pub const FLAG_COMPRESSED: u16 = 0x0002;

/// Delivery of the frame should be acknowledged.
pub const FLAG_RELIABLE: u16 = 0x0004;

/// All flag bits that this protocol version defines.
pub const FLAG_MASK: u16 = 0x0007;

/// Bitset over the defined flag bits.
#[derive(Clone, Copy, Debug, PartialEq, Eq, Structural)]
pub struct PacketFlags {
    pub bits: u16,
}

impl PacketFlags {
    /// True when only defined flag bits are set.
    pub open spec fn wf(self) -> bool {
        self.bits & FLAG_MASK == self.bits
    }

    /// True when the given bits are all set.
    pub open spec fn spec_contains(self, mask: u16) -> bool {
        self.bits & mask == mask
    }

    pub fn empty() -> (r: Self)
        ensures
            r.bits == 0,
    {
        PacketFlags { bits: 0 }
    }

    /// Keeps the defined bits of `bits` and silently drops the rest.
    pub fn from_bits_truncate(bits: u16) -> (r: Self)
        ensures
            r.bits == bits & FLAG_MASK,
            r.wf(),
    {
        proof {
            assert((bits & FLAG_MASK) & FLAG_MASK == bits & FLAG_MASK) by (bit_vector);
        }
        PacketFlags { bits: bits & FLAG_MASK }
    }

    pub fn bits(&self) -> (r: u16)
        ensures
            r == self.bits,
    {
        self.bits
    }

    pub fn contains(&self, mask: u16) -> (r: bool)
        ensures
            r == self.spec_contains(mask),
    {
        self.bits & mask == mask
    }
}

/// The enumerated kinds of messages a frame can carry. Codes the peer does
/// not know decode to `Unknown` and re-encode as `0xFFFF`.
#[derive(Clone, Copy, Debug, Hash, PartialEq, Eq, Structural)]
pub enum MessageType {
    HandshakeInit,
    HandshakeResponse,
    HandshakeComplete,
    AuthRequest,
    AuthChallenge,
    AuthResponse,
    AuthSuccess,
    AuthFailure,
    TextMessage,
    TextAck,
    TextRead,
    FileInit,
    FileChunk,
    FileAck,
    FileComplete,
    FileCancel,
    VoiceInit,
    VoiceOffer,
    VoiceAnswer,
    VoiceIce,
    VoiceData,
    VoiceEnd,
    VideoInit,
    VideoOffer,
    VideoAnswer,
    VideoData,
    VideoEnd,
    JoinRoom,
    RoomJoined,
    PresenceUpdate,
    TypingIndicator,
    Ping,
    Pong,
    Disconnect,
    Unknown,
}

/// The wire code of each message kind.
pub open spec fn spec_code_of(m: MessageType) -> u16 {
    match m {
        MessageType::HandshakeInit => 0x0001,
        MessageType::HandshakeResponse => 0x0002,
        MessageType::HandshakeComplete => 0x0003,
        MessageType::AuthRequest => 0x0010,
        MessageType::AuthChallenge => 0x0011,
        MessageType::AuthResponse => 0x0012,
        MessageType::AuthSuccess => 0x0013,
        MessageType::AuthFailure => 0x0014,
        MessageType::TextMessage => 0x0020,
        MessageType::TextAck => 0x0021,
        MessageType::TextRead => 0x0022,
        MessageType::FileInit => 0x0030,
        MessageType::FileChunk => 0x0031,
        MessageType::FileAck => 0x0032,
        MessageType::FileComplete => 0x0033,
        MessageType::FileCancel => 0x0034,
        MessageType::VoiceInit => 0x0040,
        MessageType::VoiceOffer => 0x0041,
        MessageType::VoiceAnswer => 0x0042,
        MessageType::VoiceIce => 0x0043,
        MessageType::VoiceData => 0x0044,
        MessageType::VoiceEnd => 0x0045,
        MessageType::VideoInit => 0x0050,
        MessageType::VideoOffer => 0x0051,
        MessageType::VideoAnswer => 0x0052,
        MessageType::VideoData => 0x0053,
        MessageType::VideoEnd => 0x0054,
        MessageType::JoinRoom => 0x00A0,
        MessageType::RoomJoined => 0x00A1,
        MessageType::PresenceUpdate => 0x0060,
        MessageType::TypingIndicator => 0x0061,
        MessageType::Ping => 0x0070,
        MessageType::Pong => 0x0071,
        MessageType::Disconnect => 0x00FF,
        MessageType::Unknown => 0xFFFF,
    }
}

/// True of the codes that name a kind other than `Unknown`.
pub open spec fn spec_known_code(code: u16) -> bool {
    exists|m: MessageType| m != MessageType::Unknown && spec_code_of(m) == code
}

/// The message kind a wire code decodes to.
pub open spec fn spec_type_of(code: u16) -> MessageType {
    if code == 0x0001 {
        MessageType::HandshakeInit
    } else if code == 0x0002 {
        MessageType::HandshakeResponse
    } else if code == 0x0003 {
        MessageType::HandshakeComplete
    } else if code == 0x0010 {
        MessageType::AuthRequest
    } else if code == 0x0011 {
        MessageType::AuthChallenge
    } else if code == 0x0012 {
        MessageType::AuthResponse
    } else if code == 0x0013 {
        MessageType::AuthSuccess
    } else if code == 0x0014 {
        MessageType::AuthFailure
    } else if code == 0x0020 {
        MessageType::TextMessage
    } else if code == 0x0021 {
        MessageType::TextAck
    } else if code == 0x0022 {
        MessageType::TextRead
    } else if code == 0x0030 {
        MessageType::FileInit
    } else if code == 0x0031 {
        MessageType::FileChunk
    } else if code == 0x0032 {
        MessageType::FileAck
    } else if code == 0x0033 {
        MessageType::FileComplete
    } else if code == 0x0034 {
        MessageType::FileCancel
    } else if code == 0x0040 {
        MessageType::VoiceInit
    } else if code == 0x0041 {
        MessageType::VoiceOffer
    } else if code == 0x0042 {
        MessageType::VoiceAnswer
    } else if code == 0x0043 {
        MessageType::VoiceIce
    } else if code == 0x0044 {
        MessageType::VoiceData
    } else if code == 0x0045 {
        MessageType::VoiceEnd
    } else if code == 0x0050 {
        MessageType::VideoInit
    } else if code == 0x0051 {
        MessageType::VideoOffer
    } else if code == 0x0052 {
        MessageType::VideoAnswer
    } else if code == 0x0053 {
        MessageType::VideoData
    } else if code == 0x0054 {
        MessageType::VideoEnd
    } else if code == 0x00A0 {
        MessageType::JoinRoom
    } else if code == 0x00A1 {
        MessageType::RoomJoined
    } else if code == 0x0060 {
        MessageType::PresenceUpdate
    } else if code == 0x0061 {
        MessageType::TypingIndicator
    } else if code == 0x0070 {
        MessageType::Ping
    } else if code == 0x0071 {
        MessageType::Pong
    } else if code == 0x00FF {
        MessageType::Disconnect
    } else {
        MessageType::Unknown
    }
}

impl MessageType {
    /// The wire code this kind encodes as.
    pub fn code(self) -> (c: u16)
        ensures
            c == spec_code_of(self),
    {
        match self {
            MessageType::HandshakeInit => 0x0001,
            MessageType::HandshakeResponse => 0x0002,
            MessageType::HandshakeComplete => 0x0003,
            MessageType::AuthRequest => 0x0010,
            MessageType::AuthChallenge => 0x0011,
            MessageType::AuthResponse => 0x0012,
            MessageType::AuthSuccess => 0x0013,
            MessageType::AuthFailure => 0x0014,
            MessageType::TextMessage => 0x0020,
            MessageType::TextAck => 0x0021,
            MessageType::TextRead => 0x0022,
            MessageType::FileInit => 0x0030,
            MessageType::FileChunk => 0x0031,
            MessageType::FileAck => 0x0032,
            MessageType::FileComplete => 0x0033,
            MessageType::FileCancel => 0x0034,
            MessageType::VoiceInit => 0x0040,
            MessageType::VoiceOffer => 0x0041,
            MessageType::VoiceAnswer => 0x0042,
            MessageType::VoiceIce => 0x0043,
            MessageType::VoiceData => 0x0044,
            MessageType::VoiceEnd => 0x0045,
            MessageType::VideoInit => 0x0050,
            MessageType::VideoOffer => 0x0051,
            MessageType::VideoAnswer => 0x0052,
            MessageType::VideoData => 0x0053,
            MessageType::VideoEnd => 0x0054,
            MessageType::JoinRoom => 0x00A0,
            MessageType::RoomJoined => 0x00A1,
            MessageType::PresenceUpdate => 0x0060,
            MessageType::TypingIndicator => 0x0061,
            MessageType::Ping => 0x0070,
            MessageType::Pong => 0x0071,
            MessageType::Disconnect => 0x00FF,
            MessageType::Unknown => 0xFFFF,
        }
    }
}

impl From<u16> for MessageType {
    /// Decodes a wire code; anything undefined becomes `Unknown`.
    fn from(v: u16) -> (r: MessageType) {
        match v {
            0x0001 => MessageType::HandshakeInit,
            0x0002 => MessageType::HandshakeResponse,
            0x0003 => MessageType::HandshakeComplete,
            0x0010 => MessageType::AuthRequest,
            0x0011 => MessageType::AuthChallenge,
            0x0012 => MessageType::AuthResponse,
            0x0013 => MessageType::AuthSuccess,
            0x0014 => MessageType::AuthFailure,
            0x0020 => MessageType::TextMessage,
            0x0021 => MessageType::TextAck,
            0x0022 => MessageType::TextRead,
            0x0030 => MessageType::FileInit,
            0x0031 => MessageType::FileChunk,
            0x0032 => MessageType::FileAck,
            0x0033 => MessageType::FileComplete,
            0x0034 => MessageType::FileCancel,
            0x0040 => MessageType::VoiceInit,
            0x0041 => MessageType::VoiceOffer,
            0x0042 => MessageType::VoiceAnswer,
            0x0043 => MessageType::VoiceIce,
            0x0044 => MessageType::VoiceData,
            0x0045 => MessageType::VoiceEnd,
            0x0050 => MessageType::VideoInit,
            0x0051 => MessageType::VideoOffer,
            0x0052 => MessageType::VideoAnswer,
            0x0053 => MessageType::VideoData,
            0x0054 => MessageType::VideoEnd,
            0x00A0 => MessageType::JoinRoom,
            0x00A1 => MessageType::RoomJoined,
            0x0060 => MessageType::PresenceUpdate,
            0x0061 => MessageType::TypingIndicator,
            0x0070 => MessageType::Ping,
            0x0071 => MessageType::Pong,
            0x00FF => MessageType::Disconnect,
            _ => MessageType::Unknown,
        }
    }
}

impl vstd::std_specs::convert::FromSpecImpl<u16> for MessageType {
    open spec fn obeys_from_spec() -> bool {
        true
    }

    open spec fn from_spec(v: u16) -> Self {
        spec_type_of(v)
    }
}

/// Decoding a kind's own code gives that kind back.
pub proof fn lemma_type_code_round_trip(m: MessageType)
    ensures
        spec_type_of(spec_code_of(m)) == m,
{
}

/// An undefined code decodes to `Unknown`, which re-encodes as `0xFFFF`.
pub proof fn lemma_unknown_code_round_trip(code: u16)
    requires
        !spec_known_code(code),
    ensures
        spec_type_of(code) == MessageType::Unknown,
        spec_code_of(spec_type_of(code)) == 0xFFFF,
{
    if spec_type_of(code) != MessageType::Unknown {
        let m = spec_type_of(code);
        assert(m != MessageType::Unknown && spec_code_of(m) == code);
    }
}

/// The ways a byte buffer can fail to parse as a packet.
#[derive(Clone, Copy, Debug, PartialEq, Eq, Structural)]
pub enum ParseError {
    /// Fewer than `HEADER_SIZE` bytes available.
    TooShort,
    /// The first four bytes are not the protocol magic.
    BadMagic,
    /// Fewer bytes after the header than the declared payload length.
    IncompletePayload,
    /// `ENCRYPTED` is set but no 16 tag bytes follow the payload.
    MissingTag,
}

/// The fixed 45-byte header that opens every frame.
#[derive(Clone, Debug, PartialEq, Eq)]
pub struct PacketHeader {
    pub magic: u32,
    pub version: u8,
    pub flags: PacketFlags,
    /// Payload byte count, excluding header and auth tag.
    pub length: u32,
    /// Per-direction monotonic counter.
    pub sequence: u64,
    pub msg_type: MessageType,
    /// Sender wall-clock milliseconds since the Unix epoch.
    pub timestamp: u64,
    /// Opaque 16-byte identifier of the logical session.
    pub session_id: [u8; 16],
}

impl Default for PacketHeader {
    /// A header ready to be filled in: correct magic, version 1, no flags,
    /// a nil session identifier, and the clock's current time.
    fn default() -> (r: Self)
        ensures
            r.magic == MAGIC_NUMBER,
            r.version == 1,
            r.flags.bits == 0,
            r.length == 0,
            r.sequence == 0,
            r.msg_type == MessageType::Ping,
            r.session_id@ == Seq::<u8>::new(16, |i: int| 0u8),
    {
        let session_id: [u8; 16] = [0; 16];
        proof {
            assert(session_id@ =~= Seq::<u8>::new(16, |i: int| 0u8));
        }
        PacketHeader {
            magic: MAGIC_NUMBER,
            version: 1,
            flags: PacketFlags::empty(),
            length: 0,
            sequence: 0,
            msg_type: MessageType::Ping,
            timestamp: now_millis(),
            session_id,
        }
    }
}

/// The atomic unit on the wire.
#[derive(Clone, Debug, PartialEq, Eq)]
pub struct Packet {
    pub header: PacketHeader,
    pub payload: Vec<u8>,
    /// Present exactly when the `ENCRYPTED` flag is set.
    pub auth_tag: Option<[u8; 16]>,
}

/// The mathematical content of a packet: every field as a plain value.
#[verifier::ext_equal]
pub struct PacketModel {
    pub magic: u32,
    pub version: u8,
    pub flags: u16,
    pub length: u32,
    pub sequence: u64,
    pub msg_type: MessageType,
    pub timestamp: u64,
    pub session_id: Seq<u8>,
    pub payload: Seq<u8>,
    pub auth_tag: Option<Seq<u8>>,
}

impl View for Packet {
    type V = PacketModel;

    open spec fn view(&self) -> PacketModel {
        PacketModel {
            magic: self.header.magic,
            version: self.header.version,
            flags: self.header.flags.bits,
            length: self.header.length,
            sequence: self.header.sequence,
            msg_type: self.header.msg_type,
            timestamp: self.header.timestamp,
            session_id: self.header.session_id@,
            payload: self.payload@,
            auth_tag: match self.auth_tag {
                Some(t) => Some(t@),
                None => None,
            },
        }
    }
}

impl PacketModel {
    /// True when the `ENCRYPTED` flag bit is set.
    pub open spec fn encrypted(self) -> bool {
        self.flags & FLAG_ENCRYPTED == FLAG_ENCRYPTED
    }

    /// A well-formed packet: correct magic, only defined flag bits, a length
    /// field that counts the payload, and a 16-byte tag exactly when the
    /// `ENCRYPTED` flag is set.
    pub open spec fn wf(self) -> bool {
        &&& self.magic == MAGIC_NUMBER
        &&& self.flags & FLAG_MASK == self.flags
        &&& self.length == self.payload.len()
        &&& self.session_id.len() == 16
        &&& (self.encrypted() <==> self.auth_tag is Some)
        &&& (self.auth_tag is Some ==> self.auth_tag->0.len() == 16)
    }
}

/// The 45 header bytes of a packet, in wire order.
pub open spec fn spec_header_bytes(p: PacketModel) -> Seq<u8> {
    spec_le32(p.magic) + seq![p.version] + spec_le16(p.flags) + spec_le32(p.length)
        + spec_le64(p.sequence) + spec_le16(spec_code_of(p.msg_type)) + spec_le64(p.timestamp)
        + p.session_id
}

/// The whole frame: header, payload, then the tag when one is present.
pub open spec fn spec_serialize(p: PacketModel) -> Seq<u8> {
    spec_header_bytes(p) + p.payload + (match p.auth_tag {
        Some(t) => t,
        None => Seq::<u8>::empty(),
    })
}

/// What parsing a byte buffer yields, step by step as the wire format
/// prescribes: header checks, payload split, then the tag when the
/// `ENCRYPTED` flag demands one. Trailing bytes are the caller's.
pub open spec fn spec_parse(data: Seq<u8>) -> Result<PacketModel, ParseError> {
    if data.len() < HEADER_SIZE {
        Err(ParseError::TooShort)
    } else if spec_u32_of(data.subrange(0, 4)) != MAGIC_NUMBER {
        Err(ParseError::BadMagic)
    } else {
        let flags = spec_u16_of(data.subrange(5, 7)) & FLAG_MASK;
        let length = spec_u32_of(data.subrange(7, 11));
        if data.len() < HEADER_SIZE + length {
            Err(ParseError::IncompletePayload)
        } else if flags & FLAG_ENCRYPTED == FLAG_ENCRYPTED && data.len() < HEADER_SIZE + length
            + 16 {
            Err(ParseError::MissingTag)
        } else {
            Ok(
                PacketModel {
                    magic: MAGIC_NUMBER,
                    version: data[4],
                    flags: flags,
                    length: length,
                    sequence: spec_u64_of(data.subrange(11, 19)),
                    msg_type: spec_type_of(spec_u16_of(data.subrange(19, 21))),
                    timestamp: spec_u64_of(data.subrange(21, 29)),
                    session_id: data.subrange(29, 45),
                    payload: data.subrange(45, 45 + length),
                    auth_tag: if flags & FLAG_ENCRYPTED == FLAG_ENCRYPTED {
                        Some(data.subrange(45 + length, 45 + length + 16))
                    } else {
                        None
                    },
                },
            )
        }
    }
}

impl Packet {
    /// A fresh packet of the given kind: flags empty, sequence 0, timestamp
    /// taken from the wall clock.
    pub fn new(msg_type: MessageType, payload: Vec<u8>, session_id: [u8; 16]) -> (r: Packet)
        requires
            payload@.len() <= u32::MAX,
        ensures
            r@.magic == MAGIC_NUMBER,
            r@.version == 1,
            r@.flags == 0,
            r@.length == payload@.len(),
            r@.sequence == 0,
            r@.msg_type == msg_type,
            r@.session_id == session_id@,
            r@.payload == payload@,
            r@.auth_tag is None,
            r@.wf(),
    {
        let length = payload.len() as u32;
        proof {
            assert(0u16 & FLAG_MASK == 0u16) by (bit_vector);
            assert(0u16 & FLAG_ENCRYPTED != FLAG_ENCRYPTED) by (bit_vector);
        }
        Packet {
            header: PacketHeader {
                magic: MAGIC_NUMBER,
                version: 1,
                flags: PacketFlags::empty(),
                length,
                sequence: 0,
                msg_type,
                timestamp: now_millis(),
                session_id,
            },
            payload,
            auth_tag: None,
        }
    }

    /// Serializes the packet in the field order of the wire format.
    pub fn to_bytes(&self) -> (r: Vec<u8>)
        ensures
            r@ == spec_serialize(self@),
            r@.len() == 45 + self.payload@.len() + (if self.auth_tag is Some {
                16int
            } else {
                0int
            }),
    {
        let mut buf: Vec<u8> = Vec::new();
        push_le32(&mut buf, self.header.magic);
        buf.push(self.header.version);
        push_le16(&mut buf, self.header.flags.bits);
        push_le32(&mut buf, self.header.length);
        push_le64(&mut buf, self.header.sequence);
        push_le16(&mut buf, self.header.msg_type.code());
        push_le64(&mut buf, self.header.timestamp);
        buf.extend_from_slice(self.header.session_id.as_slice());
        buf.extend_from_slice(self.payload.as_slice());
        match &self.auth_tag {
            Some(tag) => {
                buf.extend_from_slice(tag.as_slice());
            },
            None => {},
        }
        proof {
            assert(buf@ =~= spec_serialize(self@));
        }
        buf
    }

    /// Parses one packet from the front of `data`; trailing bytes are left to
    /// the caller. The result is exactly what `spec_parse` prescribes.
    pub fn from_bytes(data: &[u8]) -> (r: Result<Packet, ParseError>)
        ensures
            r is Ok <==> spec_parse(data@) is Ok,
            r is Ok ==> r->Ok_0@ == spec_parse(data@)->Ok_0,
            r is Err ==> r->Err_0 == spec_parse(data@)->Err_0,
    {
        let n: usize = data.len();
        if n < HEADER_SIZE {
            return Err(ParseError::TooShort);
        }
        let magic = read_le32(data, 0);
        if magic != MAGIC_NUMBER {
            return Err(ParseError::BadMagic);
        }
        let version = data[4];
        let flags = PacketFlags::from_bits_truncate(read_le16(data, 5));
        let length = read_le32(data, 7);
        let sequence = read_le64(data, 11);
        let msg_type = MessageType::from(read_le16(data, 19));
        let timestamp = read_le64(data, 21);
        let session_id = read_bytes_16(data, 29);
        if ((n - HEADER_SIZE) as u64) < length as u64 {
            return Err(ParseError::IncompletePayload);
        }
        let payload_end: usize = HEADER_SIZE + length as usize;
        let payload: Vec<u8> = vstd::slice::slice_to_vec(&data[HEADER_SIZE..payload_end]);
        let encrypted = flags.contains(FLAG_ENCRYPTED);
        let auth_tag: Option<[u8; 16]> = if encrypted {
            if ((n - payload_end) as u64) < 16 {
                return Err(ParseError::MissingTag);
            }
            Some(read_bytes_16(data, payload_end))
        } else {
            None
        };
        let r = Packet {
            header: PacketHeader {
                magic,
                version,
                flags,
                length,
                sequence,
                msg_type,
                timestamp,
                session_id,
            },
            payload,
            auth_tag,
        };
        proof {
            assert(r@ =~= spec_parse(data@)->Ok_0);
        }
        Ok(r)
    }
}

/// Thin facade over `Packet::to_bytes`.
pub struct Serializer;

impl Serializer {
    pub fn serialize(packet: &Packet) -> (r: Vec<u8>)
        ensures
            r@ == spec_serialize(packet@),
    {
        packet.to_bytes()
    }
}

/// Parsing inverts serialization: a well-formed packet survives the wire
/// byte for byte.
pub proof fn lemma_parse_serialize(p: PacketModel)
    requires
        p.wf(),
    ensures
        spec_parse(spec_serialize(p)) == Ok::<PacketModel, ParseError>(p),
{
    let s = spec_serialize(p);
    let h = spec_header_bytes(p);
    assert(h.len() == 45);
    assert(s.len() == 45 + p.payload.len() + (if p.auth_tag is Some {
        16int
    } else {
        0int
    }));
    assert(s.subrange(0, 4) =~= spec_le32(p.magic));
    lemma_le32_inverse(p.magic);
    assert(s[4] == p.version);
    assert(s.subrange(5, 7) =~= spec_le16(p.flags));
    lemma_le16_inverse(p.flags);
    assert(s.subrange(7, 11) =~= spec_le32(p.length));
    lemma_le32_inverse(p.length);
    assert(s.subrange(11, 19) =~= spec_le64(p.sequence));
    lemma_le64_inverse(p.sequence);
    assert(s.subrange(19, 21) =~= spec_le16(spec_code_of(p.msg_type)));
    lemma_le16_inverse(spec_code_of(p.msg_type));
    lemma_type_code_round_trip(p.msg_type);
    assert(s.subrange(21, 29) =~= spec_le64(p.timestamp));
    lemma_le64_inverse(p.timestamp);
    assert(s.subrange(29, 45) =~= p.session_id);
    assert(s.subrange(45, 45 + p.length) =~= p.payload);
    let flags = spec_u16_of(s.subrange(5, 7)) & FLAG_MASK;
    assert(flags == p.flags & FLAG_MASK);
    if p.auth_tag is Some {
        assert(s.subrange(45 + p.length, 45 + p.length + 16) =~= p.auth_tag->0);
    }
    assert(spec_parse(s) is Ok);
    assert(spec_parse(s)->Ok_0 =~= p);
}

/// Every serialized frame opens with the little-endian magic "ADAT".
pub proof fn lemma_serialized_magic(p: PacketModel)
    requires
        p.magic == MAGIC_NUMBER,
    ensures
        spec_serialize(p).len() >= 4,
        spec_serialize(p)[0] == 0x54,
        spec_serialize(p)[1] == 0x41,
        spec_serialize(p)[2] == 0x44,
        spec_serialize(p)[3] == 0x41,
{
    let s = spec_serialize(p);
    assert(s.subrange(0, 4) =~= spec_le32(MAGIC_NUMBER));
    assert(0x41444154u32 & 0xff == 0x54) by (bit_vector);
    assert((0x41444154u32 >> 8) & 0xff == 0x41) by (bit_vector);
    assert((0x41444154u32 >> 16) & 0xff == 0x44) by (bit_vector);
    assert((0x41444154u32 >> 24) & 0xff == 0x41) by (bit_vector);
}

/// The serialized frame is exactly header, payload, and optional tag long.
pub proof fn lemma_serialized_len(p: PacketModel)
    requires
        p.auth_tag is Some ==> p.auth_tag->0.len() == 16,
        p.session_id.len() == 16,
    ensures
        spec_serialize(p).len() == 45 + p.payload.len() + (if p.auth_tag is Some {
            16int
        } else {
            0int
        }),
{
}

} // verus!
