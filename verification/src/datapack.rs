//! The wire format of a message: a four-byte big-endian id, a four-byte
//! big-endian payload length, then the payload.
use crate::cursor::{ByteCursor, CursorView};
use crate::error::Error;
use crate::message::{Message, MessageView};
use crate::wire::{put_slice_vec, put_u32_vec, u32_be_bytes, u32_from_be_bytes};
use vstd::prelude::*;

verus! {

/// `std::io::Error`, the error type of the encoding side of [`IDataPack`].
#[verifier::external_type_specification]
#[verifier::external_body]
pub struct ExIoError(std::io::Error);

/// The length of a frame's header: the id and the payload length.
pub const HEAD_LEN: u32 = 8;

/// The payload length that the header at the start of `s` declares.
pub open spec fn frame_payload_len(s: Seq<u8>) -> nat {
    u32_from_be_bytes(s.subrange(4, 8)) as nat
}

/// Whether `s` begins with a whole frame: a header and as many payload bytes as it declares.
pub open spec fn frame_complete(s: Seq<u8>) -> bool {
    s.len() >= 8 && s.len() - 8 >= frame_payload_len(s)
}

/// The length of the frame at the start of `s`.
pub open spec fn frame_len(s: Seq<u8>) -> nat {
    8 + frame_payload_len(s)
}

/// The message that the frame at the start of `s` decodes to.
pub open spec fn frame_message(s: Seq<u8>) -> MessageView {
    MessageView {
        id: u32_from_be_bytes(s),
        data_len: frame_payload_len(s) as usize,
        data: s.subrange(8, frame_len(s) as int),
    }
}

/// The frame that a message encodes to: its id, its length field, then its payload.
pub open spec fn encode_message(m: MessageView) -> Seq<u8> {
    u32_be_bytes(m.id) + u32_be_bytes(m.data_len as u32) + m.data
}

/// The frame spec functions in terms of the wire format: the payload length
/// is the big-endian number in bytes 4..8, the id the one in bytes 0..4, and
/// the payload the bytes after the eight-byte header.
pub proof fn lemma_frame_fields(s: Seq<u8>)
    ensures
        frame_complete(s) <==> (s.len() >= 8 && s.len() - 8 >= u32_from_be_bytes(s.subrange(4, 8))),
        s.len() >= 8 ==> frame_len(s) == 8 + u32_from_be_bytes(s.subrange(4, 8)),
        frame_complete(s) ==> {
            &&& frame_message(s).id == u32_from_be_bytes(s.subrange(0, 4))
            &&& frame_message(s).data_len == u32_from_be_bytes(s.subrange(4, 8))
            &&& frame_message(s).data == s.subrange(8, 8 + u32_from_be_bytes(s.subrange(4, 8)))
        },
{
    if s.len() >= 4 {
        assert(u32_from_be_bytes(s) == u32_from_be_bytes(s.subrange(0, 4)));
    }
}

/// The frame a message encodes to, in terms of the wire format: the id's
/// four big-endian bytes, the length field's four, then the payload.
pub proof fn lemma_encode_fields(m: MessageView)
    ensures
        encode_message(m).len() == 8 + m.data.len(),
        encode_message(m).subrange(0, 4) == u32_be_bytes(m.id),
        encode_message(m).subrange(4, 8) == u32_be_bytes(m.data_len as u32),
        encode_message(m).subrange(8, encode_message(m).len() as int) == m.data,
{
    let e = encode_message(m);
    assert(e.subrange(0, 4) =~= u32_be_bytes(m.id));
    assert(e.subrange(4, 8) =~= u32_be_bytes(m.data_len as u32));
    assert(e.subrange(8, e.len() as int) =~= m.data);
}

/// Packing and unpacking of messages.
pub trait IDataPack {
    type Msg;

    /// Whether `msg` is small enough for its frame to fit in memory.
    spec fn spec_packable(msg: &Self::Msg) -> bool;

    /// The length of a frame's header.
    fn GetHeadLen() -> u32;

    /// Encodes a message as a frame.
    fn Pack(msg: &Self::Msg) -> Result<Vec<u8>, std::io::Error>
        requires
            Self::spec_packable(msg),
    ;

    /// Decodes the frame at the cursor.
    fn Unpack(src: &mut ByteCursor<'_>) -> Result<Self::Msg, Error>;
}

/// The frame codec of the protocol.
pub struct DataPack;

impl DataPack {
    /// Checks whether a whole frame lies at the cursor. On success the cursor
    /// has moved past the header; when fewer than eight bytes remain it has not moved.
    pub fn check(src: &mut ByteCursor<'_>) -> (res: Result<(), Error>)
        ensures
            res is Ok <==> frame_complete(old(src)@.rest()),
            res is Ok <==> (old(src)@.rest().len() >= 8 && old(src)@.rest().len() - 8
                >= u32_from_be_bytes(old(src)@.rest().subrange(4, 8))),
            res matches Err(e) ==> e == Error::Incomplete,
            final(src)@.data == old(src)@.data,
            final(src)@.pos == if old(src)@.rest().len() < 8 {
                old(src)@.pos as int
            } else {
                old(src)@.pos + 8
            },
    {
        let ghost rest = src@.rest();
        proof {
            lemma_frame_fields(rest);
        }
        if src.remaining() < 8 {
            return Err(Error::Incomplete);
        }
        src.advance(4);
        let data_len = src.get_u32() as usize;
        proof {
            assert(src@.rest() =~= rest.subrange(8, rest.len() as int));
            assert(rest.subrange(4, rest.len() as int).subrange(0, 4) =~= rest.subrange(4, 8));
        }
        if src.remaining() < data_len {
            return Err(Error::Incomplete);
        }
        Ok(())
    }

    /// Decodes the frame at the cursor and moves past it. When the frame is
    /// incomplete the cursor stops after the last whole header field read.
    pub fn Unpack(src: &mut ByteCursor<'_>) -> (res: Result<Message, Error>)
        ensures
            res is Ok <==> frame_complete(old(src)@.rest()),
            res is Ok <==> (old(src)@.rest().len() >= 8 && old(src)@.rest().len() - 8
                >= u32_from_be_bytes(old(src)@.rest().subrange(4, 8))),
            res matches Ok(m) ==> ({
                let rest = old(src)@.rest();
                let len = u32_from_be_bytes(rest.subrange(4, 8));
                &&& m@.id == u32_from_be_bytes(rest.subrange(0, 4))
                &&& m@.data_len == len
                &&& m@.data == rest.subrange(8, 8 + len)
                &&& final(src)@.pos == old(src)@.pos + 8 + len
            }),
            final(src)@.data == old(src)@.data,
            match res {
                Ok(m) => m@ == frame_message(old(src)@.rest()) && final(src)@.pos == old(src)@.pos
                    + frame_len(old(src)@.rest()),
                Err(e) => e == Error::Incomplete && final(src)@.pos == if old(src)@.rest().len()
                    < 4 {
                    old(src)@.pos as int
                } else if old(src)@.rest().len() < 8 {
                    old(src)@.pos + 4
                } else {
                    old(src)@.pos + 8
                },
            },
    {
        let ghost rest = src@.rest();
        proof {
            lemma_frame_fields(rest);
        }
        if src.remaining() < 4 {
            return Err(Error::Incomplete);
        }
        let msg_id = src.get_u32();
        if src.remaining() < 4 {
            return Err(Error::Incomplete);
        }
        let data_len = src.get_u32() as usize;
        proof {
            assert(src@.rest() =~= rest.subrange(8, rest.len() as int));
            assert(rest.subrange(4, rest.len() as int).subrange(0, 4) =~= rest.subrange(4, 8));
        }
        if src.remaining() < data_len {
            return Err(Error::Incomplete);
        }
        let data = src.read_bytes(data_len);
        proof {
            assert(data@ =~= rest.subrange(8, frame_len(rest) as int));
        }
        Ok(Message::new(msg_id, data))
    }

    /// Encodes a message as a frame: the id, the message's length (truncated to
    /// 32 bits), then the payload.
    pub fn Pack(msg: &Message) -> (res: Result<Vec<u8>, std::io::Error>)
        requires
            msg@.data.len() + 8 <= isize::MAX,
        ensures
            res matches Ok(buf) && buf@ == encode_message(msg@),
            res matches Ok(buf) && buf@.len() == 8 + msg@.data.len(),
            res matches Ok(buf) && buf@.subrange(0, 4) == u32_be_bytes(msg@.id),
            res matches Ok(buf) && buf@.subrange(4, 8) == u32_be_bytes(msg@.data_len as u32),
            res matches Ok(buf) && buf@.subrange(8, buf@.len() as int) == msg@.data,
    {
        proof {
            lemma_encode_fields(msg@);
        }
        let mut buf: Vec<u8> = Vec::new();
        put_u32_vec(&mut buf, msg.GetMsgId());
        put_u32_vec(&mut buf, msg.GetDataLen() as u32);
        put_slice_vec(&mut buf, msg.data());
        Ok(buf)
    }
}

impl IDataPack for DataPack {
    type Msg = Message;

    open spec fn spec_packable(msg: &Message) -> bool {
        msg@.data.len() + 8 <= isize::MAX
    }

    fn GetHeadLen() -> (res: u32)
        ensures
            res == 8,
    {
        HEAD_LEN
    }

    fn Pack(msg: &Message) -> (res: Result<Vec<u8>, std::io::Error>)
        ensures
            res matches Ok(buf) && buf@ == encode_message(msg@),
            res matches Ok(buf) && buf@.len() == 8 + msg@.data.len(),
            res matches Ok(buf) && buf@.subrange(0, 4) == u32_be_bytes(msg@.id),
            res matches Ok(buf) && buf@.subrange(4, 8) == u32_be_bytes(msg@.data_len as u32),
            res matches Ok(buf) && buf@.subrange(8, buf@.len() as int) == msg@.data,
    {
        DataPack::Pack(msg)
    }

    fn Unpack(src: &mut ByteCursor<'_>) -> (res: Result<Message, Error>)
        ensures
            res is Ok <==> frame_complete(old(src)@.rest()),
            res is Ok <==> (old(src)@.rest().len() >= 8 && old(src)@.rest().len() - 8
                >= u32_from_be_bytes(old(src)@.rest().subrange(4, 8))),
            res matches Ok(m) ==> ({
                let rest = old(src)@.rest();
                let len = u32_from_be_bytes(rest.subrange(4, 8));
                &&& m@.id == u32_from_be_bytes(rest.subrange(0, 4))
                &&& m@.data_len == len
                &&& m@.data == rest.subrange(8, 8 + len)
                &&& final(src)@.pos == old(src)@.pos + 8 + len
            }),
            final(src)@.data == old(src)@.data,
            match res {
                Ok(m) => m@ == frame_message(old(src)@.rest()) && final(src)@.pos == old(src)@.pos
                    + frame_len(old(src)@.rest()),
                Err(e) => e == Error::Incomplete && final(src)@.pos == if old(src)@.rest().len()
                    < 4 {
                    old(src)@.pos as int
                } else if old(src)@.rest().len() < 8 {
                    old(src)@.pos + 4
                } else {
                    old(src)@.pos + 8
                },
            },
    {
        let ghost rest = src@.rest();
        proof {
            lemma_frame_fields(rest);
        }
        DataPack::Unpack(src)
    }
}

} // verus!
