//! Properties that relate the encoder, the decoder and the routers.
use crate::datapack::{
    encode_message, frame_complete, frame_len, frame_message, frame_payload_len, lemma_encode_fields,
    lemma_frame_fields,
};
use crate::cursor::CursorView;
use crate::message::MessageView;
use crate::request::{IRouter, IRquest, OneRouter, PingRouter, Request, TwoRouter};
use crate::wire::{
    lemma_u32_be_bytes_roundtrip, lemma_u32_be_bytes_value, lemma_u32_be_roundtrip,
    lemma_u32_from_be_bytes_value, u32_be_bytes, u32_from_be_bytes,
};
use vstd::prelude::*;

verus! {

/// Reading the frame that a message packs to, followed by any bytes, gives
/// back the message and leaves exactly the following bytes, provided that the
/// message's length is its payload's length. The frame is eight bytes longer
/// than the payload.
pub proof fn lemma_pack_then_unpack(m: MessageView, rest: Seq<u8>)
    requires
        m.data_len == m.data.len(),
        m.data.len() <= u32::MAX,
    ensures
        encode_message(m).len() == 8 + m.data.len(),
        frame_complete(encode_message(m) + rest),
        frame_len(encode_message(m) + rest) == encode_message(m).len(),
        frame_message(encode_message(m) + rest) == m,
        (encode_message(m) + rest).subrange(
            frame_len(encode_message(m) + rest) as int,
            (encode_message(m) + rest).len() as int,
        ) == rest,
{
    let e = encode_message(m);
    let s = e + rest;
    lemma_u32_be_roundtrip(m.id);
    lemma_u32_be_roundtrip(m.data_len as u32);
    assert(s.subrange(4, 8) =~= u32_be_bytes(m.data_len as u32));
    assert(s.subrange(0, 4) =~= u32_be_bytes(m.id));
    assert(u32_from_be_bytes(s) == u32_from_be_bytes(s.subrange(0, 4)));
    assert(frame_payload_len(s) == m.data.len());
    assert(s.subrange(8, frame_len(s) as int) =~= m.data);
    assert(s.subrange(frame_len(s) as int, s.len() as int) =~= rest);
}

/// Decoding a whole frame and packing the message again gives the frame back.
pub proof fn lemma_unpack_then_pack(s: Seq<u8>)
    requires
        frame_complete(s),
    ensures
        encode_message(frame_message(s)) == s.subrange(0, frame_len(s) as int),
{
    let m = frame_message(s);
    lemma_u32_be_bytes_roundtrip(s.subrange(0, 4));
    lemma_u32_be_bytes_roundtrip(s.subrange(4, 8));
    assert(u32_from_be_bytes(s) == u32_from_be_bytes(s.subrange(0, 4)));
    assert(m.data_len as u32 == u32_from_be_bytes(s.subrange(4, 8)));
    assert(encode_message(m) =~= s.subrange(0, frame_len(s) as int));
}

/// Two packed frames followed by any bytes decode one after the other: the
/// first frame gives the first message, what it leaves begins with the
/// second frame, which gives the second message and leaves the trailing bytes.
pub proof fn lemma_two_frames(m1: MessageView, m2: MessageView, rest: Seq<u8>)
    requires
        m1.data_len == m1.data.len(),
        m1.data.len() <= u32::MAX,
        m2.data_len == m2.data.len(),
        m2.data.len() <= u32::MAX,
    ensures
        ({
            let s = encode_message(m1) + encode_message(m2) + rest;
            let after = s.subrange(frame_len(s) as int, s.len() as int);
            &&& frame_complete(s)
            &&& frame_message(s) == m1
            &&& after == encode_message(m2) + rest
            &&& frame_complete(after)
            &&& frame_message(after) == m2
            &&& after.subrange(frame_len(after) as int, after.len() as int) == rest
            &&& frame_len(s) + frame_len(after) == 16 + m1.data.len() + m2.data.len()
        }),
{
    let tail = encode_message(m2) + rest;
    assert(encode_message(m1) + encode_message(m2) + rest =~= encode_message(m1) + tail);
    lemma_pack_then_unpack(m1, tail);
    lemma_pack_then_unpack(m2, rest);
}

/// A proper prefix of a packed message never holds a whole frame, so the
/// reader waits for more bytes rather than decoding it.
pub proof fn lemma_partial_frame_incomplete(m: MessageView, n: nat)
    requires
        m.data_len == m.data.len(),
        m.data.len() <= u32::MAX,
        n < encode_message(m).len(),
    ensures
        !frame_complete(encode_message(m).subrange(0, n as int)),
{
    let e = encode_message(m);
    let p = e.subrange(0, n as int);
    lemma_u32_be_roundtrip(m.data_len as u32);
    if n >= 8 {
        assert(p.subrange(4, 8) =~= u32_be_bytes(m.data_len as u32));
        assert(frame_payload_len(p) == m.data.len());
    }
}

/// A request's message id, which selects its router, is the id of the
/// message it carries, and its data is that message.
pub proof fn lemma_request_id_is_message_id(r: Request)
    ensures
        r.spec_msg_id() == r@.id,
        r.spec_data() == r@,
{
}

/// The ping router's reply is its request, unchanged.
pub proof fn lemma_ping_echoes(p: PingRouter, m: MessageView)
    ensures
        p.spec_handler(m) == m,
{
}

/// The reversing routers' reply keeps the request's id and length field and
/// holds its payload in reverse order: byte `i` of the reply is byte
/// `len - 1 - i` of the request.
pub proof fn lemma_reversing_routers_reply(one: OneRouter, two: TwoRouter, m: MessageView)
    ensures
        one.spec_handler(m).id == m.id,
        one.spec_handler(m).data_len == m.data_len,
        one.spec_handler(m).data.len() == m.data.len(),
        forall|i: int|
            0 <= i < m.data.len() ==> #[trigger] one.spec_handler(m).data[i] == m.data[m.data.len() - 1
                - i],
        two.spec_handler(m).id == m.id,
        two.spec_handler(m).data_len == m.data_len,
        two.spec_handler(m).data.len() == m.data.len(),
        forall|i: int|
            0 <= i < m.data.len() ==> #[trigger] two.spec_handler(m).data[i] == m.data[m.data.len() - 1
                - i],
{
}

/// What decoding reads off the wire: for bytes that hold a whole frame, the
/// message's id is the big-endian number in bytes 0..4, its length field
/// the one in bytes 4..8, its payload the bytes right after the header, and
/// the frame ends right after the payload.
pub proof fn lemma_decode_reads_wire_format(s: Seq<u8>)
    requires
        s.len() >= 8,
        s.len() - 8 >= s[4] as int * 0x1000000 + s[5] as int * 0x10000 + s[6] as int * 0x100 + s[7] as int,
    ensures
        ({
            let len = s[4] as int * 0x1000000 + s[5] as int * 0x10000 + s[6] as int * 0x100 + s[7] as int;
            &&& frame_complete(s)
            &&& frame_message(s).id as int == s[0] as int * 0x1000000 + s[1] as int * 0x10000 + s[2] as int
                * 0x100 + s[3] as int
            &&& frame_message(s).data_len == len
            &&& frame_message(s).data == s.subrange(8, 8 + len)
            &&& frame_len(s) == 8 + len
        }),
{
    lemma_u32_from_be_bytes_value(s.subrange(0, 4));
    lemma_u32_from_be_bytes_value(s.subrange(4, 8));
    lemma_frame_fields(s);
}

/// What encoding writes on the wire: the id's base-256 digits, most
/// significant first, then the length field's, then the payload as it is.
pub proof fn lemma_encode_writes_wire_format(m: MessageView)
    ensures
        ({
            let e = encode_message(m);
            let l = (m.data_len as u32) as int;
            &&& e.len() == 8 + m.data.len()
            &&& e[0] as int == m.id as int / 0x1000000
            &&& e[1] as int == (m.id as int / 0x10000) % 0x100
            &&& e[2] as int == (m.id as int / 0x100) % 0x100
            &&& e[3] as int == m.id as int % 0x100
            &&& e[4] as int == l / 0x1000000
            &&& e[5] as int == (l / 0x10000) % 0x100
            &&& e[6] as int == (l / 0x100) % 0x100
            &&& e[7] as int == l % 0x100
            &&& forall|i: int| 0 <= i < m.data.len() ==> #[trigger] e[8 + i] == m.data[i]
        }),
{
    let e = encode_message(m);
    lemma_encode_fields(m);
    lemma_u32_be_bytes_value(m.id);
    lemma_u32_be_bytes_value(m.data_len as u32);
    assert(e[0] == e.subrange(0, 4)[0] && e[1] == e.subrange(0, 4)[1] && e[2] == e.subrange(0, 4)[2]
        && e[3] == e.subrange(0, 4)[3]);
    assert(e[4] == e.subrange(4, 8)[0] && e[5] == e.subrange(4, 8)[1] && e[6] == e.subrange(4, 8)[2]
        && e[7] == e.subrange(4, 8)[3]);
    assert forall|i: int| 0 <= i < m.data.len() implies #[trigger] e[8 + i] == m.data[i] by {
        assert(e[8 + i] == e.subrange(8, e.len() as int)[i]);
    }
}

/// The bytes still to read at a cursor are those from its position to the
/// end, and none once the position is past the end.
pub proof fn lemma_cursor_rest(v: CursorView)
    ensures
        v.pos <= v.data.len() ==> v.rest().len() == v.data.len() - v.pos,
        v.pos <= v.data.len() ==> forall|i: int|
            0 <= i < v.data.len() - v.pos ==> #[trigger] v.rest()[i] == v.data[v.pos + i],
        v.pos > v.data.len() ==> v.rest().len() == 0,
{
}

/// Reversing a payload twice gives it back.
pub proof fn lemma_reverse_twice(s: Seq<u8>)
    ensures
        s.reverse().reverse() == s,
{
    assert(s.reverse().reverse() =~= s);
}

/// Two replies of the reversing routers undo each other: handling the reply
/// of a request gives the request back.
pub proof fn lemma_reversing_routers_undo(one: OneRouter, two: TwoRouter, m: MessageView)
    ensures
        one.spec_handler(one.spec_handler(m)) == m,
        two.spec_handler(two.spec_handler(m)) == m,
        two.spec_handler(one.spec_handler(m)) == m,
{
    lemma_reverse_twice(m.data);
}

} // verus!
