//! Framed reader: assembles whole packets from a stream of byte chunks.
//!
//! The caller feeds whatever the carrier hands it, in any chunking; the
//! reader hands back one whole packet as soon as its buffer holds one. A
//! configurable cap on the declared payload length guards against hostile
//! length fields.

use crate::codec::FLAG_ENCRYPTED;
use crate::codec::HEADER_SIZE;
use crate::codec::Packet;
use crate::codec::PacketModel;
use crate::codec::ParseError;
use crate::codec::lemma_parse_serialize;
use crate::codec::lemma_serialized_len;
use crate::codec::spec_parse;
use crate::codec::spec_serialize;
use crate::wire::lemma_le16_inverse;
use crate::wire::lemma_le32_inverse;
use crate::wire::read_le16;
use crate::wire::read_le32;
use crate::wire::spec_le16;
use crate::wire::spec_le32;
use crate::wire::spec_u16_of;
use crate::wire::spec_u32_of;
use vstd::prelude::*;

verus! {

/// The ways the reader can refuse its buffered bytes.
#[derive(Clone, Copy, Debug, PartialEq, Eq, Structural)]
pub enum FrameError {
    /// The assembled frame did not parse (in a sized frame: bad magic).
    Malformed(ParseError),
    /// The declared payload length exceeds the reader's cap.
    Oversized,
}

/// The payload length the buffered header declares.
pub open spec fn spec_peek_length(buf: Seq<u8>) -> u32
    recommends
        buf.len() >= HEADER_SIZE,
{
    spec_u32_of(buf.subrange(7, 11))
}

/// Whether the buffered header declares an encrypted frame.
pub open spec fn spec_peek_encrypted(buf: Seq<u8>) -> bool
    recommends
        buf.len() >= HEADER_SIZE,
{
    spec_u16_of(buf.subrange(5, 7)) & FLAG_ENCRYPTED == FLAG_ENCRYPTED
}

/// The whole-frame byte count the buffered header declares.
pub open spec fn spec_frame_total(buf: Seq<u8>) -> int
    recommends
        buf.len() >= HEADER_SIZE,
{
    HEADER_SIZE + spec_peek_length(buf) + (if spec_peek_encrypted(buf) {
        16int
    } else {
        0int
    })
}

/// What one extraction step yields and what it leaves buffered, as a pure
/// function of the buffer: nothing while no whole frame is buffered, else the
/// frame's parse and the bytes behind it.
pub open spec fn spec_try_next(buf: Seq<u8>, max_payload: u32) -> (Result<
    Option<PacketModel>,
    FrameError,
>, Seq<u8>) {
    if buf.len() < HEADER_SIZE {
        (Ok(None), buf)
    } else if spec_peek_length(buf) > max_payload {
        (Err(FrameError::Oversized), buf)
    } else if buf.len() < spec_frame_total(buf) {
        (Ok(None), buf)
    } else {
        let frame = buf.subrange(0, spec_frame_total(buf));
        let rest = buf.subrange(spec_frame_total(buf), buf.len() as int);
        match spec_parse(frame) {
            Ok(p) => (Ok(Some(p)), rest),
            Err(e) => (Err(FrameError::Malformed(e)), rest),
        }
    }
}

/// A stateful buffer over an ordered byte source.
pub struct FramedReader {
    buffer: Vec<u8>,
    max_payload: u32,
}

impl FramedReader {
    /// The bytes fed but not yet handed out as packets.
    pub closed spec fn spec_buffer(self) -> Seq<u8> {
        self.buffer@
    }

    /// The largest declared payload length the reader accepts.
    pub closed spec fn spec_max_payload(self) -> u32 {
        self.max_payload
    }

    /// A reader that accepts any payload length the wire format can declare.
    pub fn new() -> (r: Self)
        ensures
            r.spec_buffer() == Seq::<u8>::empty(),
            r.spec_max_payload() == u32::MAX,
    {
        FramedReader { buffer: Vec::new(), max_payload: u32::MAX }
    }

    /// A reader that refuses frames whose declared payload exceeds the cap.
    pub fn with_limit(max_payload: u32) -> (r: Self)
        ensures
            r.spec_buffer() == Seq::<u8>::empty(),
            r.spec_max_payload() == max_payload,
    {
        FramedReader { buffer: Vec::new(), max_payload }
    }

    /// Feeds bytes from the carrier; any chunking leaves the same buffer as
    /// feeding the same bytes whole.
    pub fn push(&mut self, chunk: &[u8])
        ensures
            final(self).spec_buffer() == old(self).spec_buffer() + chunk@,
            final(self).spec_max_payload() == old(self).spec_max_payload(),
    {
        self.buffer.extend_from_slice(chunk);
        proof {
            assert(self.buffer@ =~= old(self).spec_buffer() + chunk@);
        }
    }

    /// How many bytes sit in the buffer.
    pub fn buffered(&self) -> (r: usize)
        ensures
            r == self.spec_buffer().len(),
    {
        self.buffer.len()
    }

    /// True at a clean frame boundary: a zero-byte read here is an orderly
    /// close, anywhere else a mid-frame truncation.
    pub fn is_empty(&self) -> (r: bool)
        ensures
            r == (self.spec_buffer().len() == 0),
    {
        self.buffer.is_empty()
    }

    /// Hands out the next whole packet if one is buffered: `Ok(None)` asks
    /// for more bytes, `Ok(Some(p))` detaches one frame, an error consumes
    /// the refused frame (`Oversized` leaves the buffer untouched).
    pub fn try_next(&mut self) -> (r: Result<Option<Packet>, FrameError>)
        ensures
            final(self).spec_max_payload() == old(self).spec_max_payload(),
            ({
                let (sr, sbuf) = spec_try_next(
                    old(self).spec_buffer(),
                    old(self).spec_max_payload(),
                );
                &&& final(self).spec_buffer() == sbuf
                &&& (r is Ok <==> sr is Ok)
                &&& (r is Ok ==> (r->Ok_0 is Some <==> sr->Ok_0 is Some))
                &&& (r is Ok && r->Ok_0 is Some ==> r->Ok_0->0@ == sr->Ok_0->0)
                &&& (r is Err ==> r->Err_0 == sr->Err_0)
            }),
    {
        let buffered: usize = self.buffer.len();
        if buffered < HEADER_SIZE {
            return Ok(None);
        }
        let length = read_le32(self.buffer.as_slice(), 7);
        if length > self.max_payload {
            return Err(FrameError::Oversized);
        }
        let flags_bits = read_le16(self.buffer.as_slice(), 5);
        let encrypted = flags_bits & FLAG_ENCRYPTED == FLAG_ENCRYPTED;
        let extra: u64 = if encrypted {
            16
        } else {
            0
        };
        let total64: u64 = (HEADER_SIZE as u64) + (length as u64) + extra;
        if (buffered as u64) < total64 {
            return Ok(None);
        }
        let total: usize = total64 as usize;
        let rest = self.buffer.split_off(total);
        let parsed = Packet::from_bytes(self.buffer.as_slice());
        proof {
            assert(old(self).spec_buffer().subrange(0, total as int) =~= self.buffer@);
            assert(old(self).spec_buffer().subrange(total as int, old(self).spec_buffer().len() as int)
                =~= rest@);
        }
        self.buffer = rest;
        match parsed {
            Ok(p) => Ok(Some(p)),
            Err(e) => Err(FrameError::Malformed(e)),
        }
    }
}

/// Law: the reader delimits frames exactly where the codec put them. With a
/// whole serialized packet at the front of the buffer, one extraction step
/// yields that packet and leaves precisely the bytes behind it.
pub proof fn lemma_reader_delimits(p: PacketModel, rest: Seq<u8>, cap: u32)
    requires
        p.wf(),
        p.length <= cap,
    ensures
        ({
            let buf = spec_serialize(p) + rest;
            let (r, left) = spec_try_next(buf, cap);
            &&& r == Ok::<Option<PacketModel>, FrameError>(Some(p))
            &&& left == rest
        }),
{
    let s = spec_serialize(p);
    let buf = s + rest;
    lemma_serialized_len(p);
    assert(buf.subrange(7, 11) =~= spec_le32(p.length));
    lemma_le32_inverse(p.length);
    assert(spec_peek_length(buf) == p.length);
    assert(buf.subrange(5, 7) =~= spec_le16(p.flags));
    lemma_le16_inverse(p.flags);
    assert(spec_peek_encrypted(buf) == p.encrypted());
    assert(spec_frame_total(buf) == s.len());
    assert(buf.subrange(0, s.len() as int) =~= s);
    assert(buf.subrange(s.len() as int, buf.len() as int) =~= rest);
    lemma_parse_serialize(p);
}

/// The buffer after feeding a sequence of chunks, one push at a time.
pub open spec fn spec_fed(buf: Seq<u8>, chunks: Seq<Seq<u8>>) -> Seq<u8>
    decreases chunks.len(),
{
    if chunks.len() == 0 {
        buf
    } else {
        spec_fed(buf + chunks[0], chunks.drop_first())
    }
}

/// Law: the reader's buffer depends only on the bytes fed, never on their
/// chunking — feeding chunks one by one leaves exactly the concatenation.
pub proof fn lemma_chunking_immaterial(buf: Seq<u8>, chunks: Seq<Seq<u8>>)
    ensures
        spec_fed(buf, chunks) == buf + chunks.flatten(),
    decreases chunks.len(),
{
    if chunks.len() == 0 {
        assert(buf + chunks.flatten() =~= buf);
    } else {
        lemma_chunking_immaterial(buf + chunks[0], chunks.drop_first());
        assert((buf + chunks[0]) + chunks.drop_first().flatten() =~= buf + (chunks[0]
            + chunks.drop_first().flatten()));
        assert(chunks.flatten() == chunks.first() + chunks.drop_first().flatten());
    }
}

} // verus!
