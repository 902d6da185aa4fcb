use bytes::BytesMut;
use zinx_rs::frame::{buffered_len, on_read, parse_message, CloseState, ReadAction, ReadEvent};
use zinx_rs::Error;

fn frame(id: u32, payload: &[u8]) -> Vec<u8> {
    let mut v = id.to_be_bytes().to_vec();
    v.extend_from_slice(&(payload.len() as u32).to_be_bytes());
    v.extend_from_slice(payload);
    v
}

#[test]
fn parse_message_takes_one_frame_and_leaves_the_rest() {
    let mut bytes = frame(1, b"ab");
    bytes.extend(frame(2, b"c"));
    let mut buffer = BytesMut::from(&bytes[..]);
    let first = parse_message(&mut buffer).unwrap().unwrap();
    assert_eq!(first.GetMsgId(), 1);
    assert_eq!(first.GetData(), b"ab".to_vec());
    assert_eq!(&buffer[..], &frame(2, b"c")[..]);
    let second = parse_message(&mut buffer).unwrap().unwrap();
    assert_eq!(second.GetMsgId(), 2);
    assert_eq!(second.GetData(), b"c".to_vec());
    assert!(buffer.is_empty());
    assert!(parse_message(&mut buffer).unwrap().is_none());
}

#[test]
fn parse_message_waits_on_partial_frame() {
    let bytes = frame(3, b"hello");
    for cut in 0..bytes.len() {
        let mut buffer = BytesMut::from(&bytes[..cut]);
        assert!(parse_message(&mut buffer).unwrap().is_none());
        assert_eq!(&buffer[..], &bytes[..cut]);
    }
}

#[test]
fn parse_message_accepts_empty_payload() {
    let mut buffer = BytesMut::from(&frame(4, b"")[..]);
    let msg = parse_message(&mut buffer).unwrap().unwrap();
    assert_eq!(msg.GetMsgId(), 4);
    assert!(msg.GetData().is_empty());
    assert!(buffer.is_empty());
}

#[test]
fn on_read_appends_received_bytes() {
    let mut buffer = BytesMut::from(&[1u8, 2][..]);
    let action = on_read(&mut buffer, ReadEvent::Data(vec![3, 4]));
    assert!(matches!(action, ReadAction::Retry));
    assert_eq!(&buffer[..], &[1u8, 2, 3, 4][..]);
}

#[test]
fn on_read_clean_close_on_empty_buffer() {
    let mut buffer = BytesMut::new();
    let action = on_read(&mut buffer, ReadEvent::Data(vec![]));
    assert!(matches!(action, ReadAction::Finish(Ok(None))));
}

#[test]
fn on_read_close_inside_frame_is_reset() {
    let mut buffer = BytesMut::from(&[0u8, 0, 0][..]);
    let action = on_read(&mut buffer, ReadEvent::Data(vec![]));
    match action {
        ReadAction::Finish(Err(Error::Other(s))) => assert_eq!(s, "connection reset by peer"),
        _ => panic!("expected a reset"),
    }
    assert_eq!(&buffer[..], &[0u8, 0, 0][..]);
}

#[test]
fn on_read_failure_finishes_with_its_text() {
    let mut buffer = BytesMut::new();
    let action = on_read(&mut buffer, ReadEvent::Failed(String::from("broken pipe")));
    match action {
        ReadAction::Finish(Err(Error::Other(s))) => assert_eq!(s, "broken pipe"),
        _ => panic!("expected a failure"),
    }
}

#[test]
fn frames_split_across_reads_are_reassembled() {
    let bytes = frame(9, b"split me");
    let mut buffer = BytesMut::new();
    let (a, b) = bytes.split_at(5);
    assert!(matches!(on_read(&mut buffer, ReadEvent::Data(a.to_vec())), ReadAction::Retry));
    assert!(parse_message(&mut buffer).unwrap().is_none());
    assert!(matches!(on_read(&mut buffer, ReadEvent::Data(b.to_vec())), ReadAction::Retry));
    let msg = parse_message(&mut buffer).unwrap().unwrap();
    assert_eq!(msg.GetMsgId(), 9);
    assert_eq!(msg.GetData(), b"split me".to_vec());
}

#[test]
fn close_state_stops_once() {
    let mut state = CloseState::new();
    assert!(!state.is_closed());
    assert!(state.begin_stop());
    assert!(state.is_closed());
    assert!(!state.begin_stop());
    assert!(state.is_closed());
}

#[test]
fn buffered_len_counts_waiting_bytes() {
    let mut buffer = BytesMut::new();
    assert_eq!(buffered_len(&buffer), 0);
    let _ = on_read(&mut buffer, ReadEvent::Data(vec![1, 2, 3]));
    assert_eq!(buffered_len(&buffer), 3);
}
