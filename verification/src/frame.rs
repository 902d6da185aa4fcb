//! Extraction of whole frames from a connection's read buffer, and the
//! decisions taken between reads.
use crate::cursor::ByteCursor;
use crate::datapack::{frame_complete, frame_len, frame_message, lemma_frame_fields, DataPack};
use crate::wire::u32_from_be_bytes;
use crate::error::{connection_reset_text, Error};
use crate::message::Message;
use crate::wire::{
    bytes_mut_advance, bytes_mut_as_slice, bytes_mut_contents, bytes_mut_is_empty, bytes_mut_len,
    bytes_mut_put_slice,
};
use bytes::BytesMut;
use vstd::prelude::*;

verus! {

/// Takes the first frame off the buffer when a whole one is there.
/// `Ok(None)` means that more bytes are needed; the buffer is then left as it was.
pub fn parse_message(buffer: &mut BytesMut) -> (res: Result<Option<Message>, Error>)
    ensures
        ({
            let s = bytes_mut_contents(*old(buffer));
            if frame_complete(s) {
                &&& res matches Ok(Some(m)) && m@ == frame_message(s)
                &&& bytes_mut_contents(*final(buffer)) == s.subrange(frame_len(s) as int, s.len() as int)
            } else {
                &&& res matches Ok(None)
                &&& bytes_mut_contents(*final(buffer)) == s
            }
        }),
        ({
            let s = bytes_mut_contents(*old(buffer));
            let len = u32_from_be_bytes(s.subrange(4, 8));
            if s.len() >= 8 && s.len() - 8 >= len {
                &&& res matches Ok(Some(m)) && m@.id == u32_from_be_bytes(s.subrange(0, 4))
                    && m@.data_len == len && m@.data == s.subrange(8, 8 + len)
                &&& bytes_mut_contents(*final(buffer)) == s.subrange(8 + len, s.len() as int)
            } else {
                &&& res matches Ok(None)
                &&& bytes_mut_contents(*final(buffer)) == s
            }
        }),
{
    proof {
        lemma_frame_fields(bytes_mut_contents(*buffer));
    }
    let slice = bytes_mut_as_slice(buffer);
    let total = slice.len();
    let mut buf = ByteCursor::new(slice);
    assert(buf@.rest() =~= slice@);
    match DataPack::check(&mut buf) {
        Ok(_) => {
            buf.set_position(0);
            assert(buf@.rest() =~= slice@);
            match DataPack::Unpack(&mut buf) {
                Ok(frame) => {
                    assert(buf@.pos <= total);
                    let len = buf.position() as usize;
                    bytes_mut_advance(buffer, len);
                    Ok(Some(frame))
                },
                Err(e) => Err(e),
            }
        },
        Err(Error::Incomplete) => Ok(None),
        Err(e) => Err(e),
    }
}

/// The number of bytes waiting in the buffer.
pub fn buffered_len(buffer: &BytesMut) -> (n: usize)
    ensures
        n == bytes_mut_contents(*buffer).len(),
{
    bytes_mut_len(buffer)
}

/// What one read from the peer gave.
pub enum ReadEvent {
    /// The bytes received; none means that the peer closed the stream.
    Data(Vec<u8>),
    /// The read failed, with the failure's description.
    Failed(String),
}

/// What the reader does after a read.
pub enum ReadAction {
    /// Try to take a frame off the buffer again.
    Retry,
    /// Stop reading with this outcome: `Ok(None)` is a clean close by the peer.
    Finish(Result<Option<Message>, Error>),
}

/// Folds the outcome of one read into the buffer and decides how reading goes on.
pub fn on_read(buffer: &mut BytesMut, event: ReadEvent) -> (action: ReadAction)
    requires
        event matches ReadEvent::Data(d) ==> (d@.len() == 0 || bytes_mut_contents(
            *old(buffer),
        ).len() + d@.len() <= isize::MAX),
    ensures
        match event {
            ReadEvent::Data(d) => if d@.len() > 0 {
                &&& action is Retry
                &&& bytes_mut_contents(*final(buffer)) == bytes_mut_contents(*old(buffer)) + d@
            } else {
                &&& bytes_mut_contents(*final(buffer)) == bytes_mut_contents(*old(buffer))
                &&& if bytes_mut_contents(*old(buffer)).len() == 0 {
                    action matches ReadAction::Finish(Ok(None))
                } else {
                    action matches ReadAction::Finish(Err(Error::Other(s))) && s@
                        == connection_reset_text()
                }
            },
            ReadEvent::Failed(msg) => {
                &&& bytes_mut_contents(*final(buffer)) == bytes_mut_contents(*old(buffer))
                &&& action matches ReadAction::Finish(Err(Error::Other(s))) && s@ == msg@
            },
        },
{
    match event {
        ReadEvent::Data(d) => {
            if d.len() > 0 {
                bytes_mut_put_slice(buffer, d.as_slice());
                ReadAction::Retry
            } else if bytes_mut_is_empty(buffer) {
                ReadAction::Finish(Ok(None))
            } else {
                ReadAction::Finish(Err(Error::connection_reset()))
            }
        },
        ReadEvent::Failed(msg) => ReadAction::Finish(Err(Error::Other(msg))),
    }
}

/// Whether a connection has been stopped; stopping happens once.
pub struct CloseState {
    closed: bool,
}

impl CloseState {
    /// The state of a connection that has not been stopped.
    pub fn new() -> (res: Self)
        ensures
            !res.is_closed_spec(),
    {
        CloseState { closed: false }
    }

    pub closed spec fn is_closed_spec(&self) -> bool {
        self.closed
    }

    /// Whether the connection has been stopped.
    pub fn is_closed(&self) -> (res: bool)
        ensures
            res == self.is_closed_spec(),
    {
        self.closed
    }

    /// Marks the connection stopped. Returns `true` when it was running, in
    /// which case the caller shuts the stream down and sends the exit notice;
    /// `false` when it had already been stopped and nothing is to be done.
    pub fn begin_stop(&mut self) -> (first: bool)
        ensures
            first == !old(self).is_closed_spec(),
            final(self).is_closed_spec(),
    {
        if self.closed {
            return false;
        }
        self.closed = true;
        true
    }
}

} // verus!
