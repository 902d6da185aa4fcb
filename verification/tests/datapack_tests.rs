use zinx_rs::cursor::ByteCursor;
use zinx_rs::datapack::{DataPack, IDataPack};
use zinx_rs::message::Message;
use zinx_rs::Error;

fn frame(id: u32, payload: &[u8]) -> Vec<u8> {
    let mut v = id.to_be_bytes().to_vec();
    v.extend_from_slice(&(payload.len() as u32).to_be_bytes());
    v.extend_from_slice(payload);
    v
}

#[test]
fn head_len_is_eight() {
    assert_eq!(DataPack::GetHeadLen(), 8);
}

#[test]
fn pack_writes_big_endian_header_and_payload() {
    let mut msg = Message::new(0x0809A0A1, b"abc".to_vec());
    msg.SetDataLen(3);
    let buf = DataPack::Pack(&msg).unwrap();
    assert_eq!(buf, vec![0x08, 0x09, 0xA0, 0xA1, 0, 0, 0, 3, b'a', b'b', b'c']);
}

#[test]
fn pack_of_new_message_carries_payload_length() {
    let msg = Message::new(1, b"xy".to_vec());
    let buf = DataPack::Pack(&msg).unwrap();
    assert_eq!(buf, vec![0, 0, 0, 1, 0, 0, 0, 2, b'x', b'y']);
    assert_eq!(buf.len(), DataPack::GetHeadLen() as usize + 2);
}

#[test]
fn pack_writes_the_length_field_as_set() {
    let mut msg = Message::new(1, b"xy".to_vec());
    msg.SetDataLen(0);
    let buf = DataPack::Pack(&msg).unwrap();
    assert_eq!(buf, vec![0, 0, 0, 1, 0, 0, 0, 0, b'x', b'y']);
}

#[test]
fn unpack_then_pack_gives_the_frame_back() {
    let bytes = frame(0xA0B0C0D0, b"round trip");
    let mut cur = ByteCursor::new(&bytes[..]);
    let msg = DataPack::Unpack(&mut cur).unwrap();
    assert_eq!(DataPack::Pack(&msg).unwrap(), bytes);
}

#[test]
fn two_frames_decode_in_turn() {
    let m1 = Message::new(1, b"first".to_vec());
    let m2 = Message::new(2, b"second!".to_vec());
    let mut bytes = DataPack::Pack(&m1).unwrap();
    bytes.extend(DataPack::Pack(&m2).unwrap());
    bytes.extend_from_slice(&[0xEE, 0xEE]);
    let mut cur = ByteCursor::new(&bytes[..]);
    let a = DataPack::Unpack(&mut cur).unwrap();
    let b = DataPack::Unpack(&mut cur).unwrap();
    assert_eq!((a.GetMsgId(), a.GetData()), (1, b"first".to_vec()));
    assert_eq!((b.GetMsgId(), b.GetData()), (2, b"second!".to_vec()));
    assert_eq!(cur.position() as usize, 16 + 5 + 7);
}

#[test]
fn check_of_packed_frame_prefixes() {
    let f = DataPack::Pack(&Message::new(5, b"abc".to_vec())).unwrap();
    for k in 0..=f.len() {
        let mut cur = ByteCursor::new(&f[..k]);
        let r = DataPack::check(&mut cur);
        if k == f.len() {
            assert!(r.is_ok());
        } else {
            assert_eq!(r, Err(Error::Incomplete));
        }
    }
}

#[test]
fn pack_through_trait_matches() {
    let mut msg = Message::new(3, vec![1]);
    msg.SetDataLen(1);
    let a = <DataPack as IDataPack>::Pack(&msg).unwrap();
    assert_eq!(a, frame(3, &[1]));
}

#[test]
fn check_accepts_whole_frame_and_skips_header() {
    let bytes = frame(5, b"hello");
    let mut cur = ByteCursor::new(&bytes[..]);
    assert!(DataPack::check(&mut cur).is_ok());
    assert_eq!(cur.position(), 8);
}

#[test]
fn check_short_header_is_incomplete_and_does_not_move() {
    let bytes = vec![0u8, 0, 0, 1, 0, 0, 0];
    let mut cur = ByteCursor::new(&bytes[..]);
    assert_eq!(DataPack::check(&mut cur), Err(Error::Incomplete));
    assert_eq!(cur.position(), 0);
}

#[test]
fn check_short_payload_is_incomplete() {
    let mut bytes = frame(5, b"hello");
    bytes.pop();
    let mut cur = ByteCursor::new(&bytes[..]);
    assert_eq!(DataPack::check(&mut cur), Err(Error::Incomplete));
    assert_eq!(cur.position(), 8);
}

#[test]
fn unpack_decodes_frame_with_its_length() {
    let bytes = frame(0x01020304, b"data");
    let mut cur = ByteCursor::new(&bytes[..]);
    let msg = DataPack::Unpack(&mut cur).unwrap();
    assert_eq!(msg.GetMsgId(), 0x01020304);
    assert_eq!(msg.GetData(), b"data".to_vec());
    assert_eq!(msg.GetDataLen(), 4);
    assert_eq!(cur.position(), 12);
}

#[test]
fn unpack_stops_after_last_whole_field() {
    let bytes = vec![0u8, 0];
    let mut cur = ByteCursor::new(&bytes[..]);
    assert_eq!(DataPack::Unpack(&mut cur).unwrap_err(), Error::Incomplete);
    assert_eq!(cur.position(), 0);

    let bytes = vec![0u8, 0, 0, 1, 0, 0];
    let mut cur = ByteCursor::new(&bytes[..]);
    assert_eq!(DataPack::Unpack(&mut cur).unwrap_err(), Error::Incomplete);
    assert_eq!(cur.position(), 4);

    let bytes = vec![0u8, 0, 0, 1, 0, 0, 0, 2, 9];
    let mut cur = ByteCursor::new(&bytes[..]);
    assert_eq!(DataPack::Unpack(&mut cur).unwrap_err(), Error::Incomplete);
    assert_eq!(cur.position(), 8);
}

#[test]
fn unpack_of_pack_gives_id_and_payload() {
    let msg = Message::new(77, b"hello king eastern sun".to_vec());
    let buf = DataPack::Pack(&msg).unwrap();
    let mut cur = ByteCursor::new(&buf[..]);
    let back = DataPack::Unpack(&mut cur).unwrap();
    assert_eq!(back.GetMsgId(), 77);
    assert_eq!(back.GetData(), msg.GetData());
    assert_eq!(back.GetDataLen(), 22);
    assert_eq!(cur.position() as usize, buf.len());
}

#[test]
fn unpack_at_a_later_position() {
    let mut bytes = vec![0xffu8, 0xff];
    bytes.extend(frame(6, b"z"));
    let mut cur = ByteCursor::new(&bytes[..]);
    cur.set_position(2);
    let msg = DataPack::Unpack(&mut cur).unwrap();
    assert_eq!(msg.GetMsgId(), 6);
    assert_eq!(msg.GetData(), b"z".to_vec());
}

#[test]
fn cursor_remaining_past_end_is_zero() {
    let bytes = vec![1u8, 2, 3];
    let mut cur = ByteCursor::new(&bytes[..]);
    assert_eq!(cur.remaining(), 3);
    cur.set_position(10);
    assert_eq!(cur.remaining(), 0);
    assert_eq!(DataPack::check(&mut cur), Err(Error::Incomplete));
}

#[test]
fn cursor_get_u32_is_big_endian() {
    let bytes = vec![0x08u8, 0x09, 0xA0, 0xA1, 0xff];
    let mut cur = ByteCursor::new(&bytes[..]);
    assert_eq!(cur.get_u32(), 0x0809A0A1);
    assert_eq!(cur.position(), 4);
    assert_eq!(cur.remaining(), 1);
}

#[test]
fn header_numbers_read_back_as_written() {
    for id in [0u32, 1, 255, 256, 0x0809A0A1, u32::MAX] {
        let mut msg = Message::new(id, vec![]);
        msg.SetDataLen(0);
        let buf = DataPack::Pack(&msg).unwrap();
        let mut cur = ByteCursor::new(&buf[..]);
        assert_eq!(cur.get_u32(), id);
        assert_eq!(cur.get_u32(), 0);
    }
}

#[test]
fn unpack_through_trait_moves_cursor_like_inherent() {
    let bytes = frame(11, b"trait");
    let mut cur = ByteCursor::new(&bytes[..]);
    let msg = <DataPack as IDataPack>::Unpack(&mut cur).unwrap();
    assert_eq!(msg.GetMsgId(), 11);
    assert_eq!(msg.GetData(), b"trait".to_vec());
    assert_eq!(cur.position() as usize, bytes.len());

    let short = vec![0u8, 0, 0, 1, 0];
    let mut cur = ByteCursor::new(&short[..]);
    assert_eq!(<DataPack as IDataPack>::Unpack(&mut cur).unwrap_err(), Error::Incomplete);
    assert_eq!(cur.position(), 4);
}
