use vstd::prelude::*;

verus! {

/// The abstract value of a [`Message`].
pub struct MessageView {
    pub id: u32,
    pub data_len: usize,
    pub data: Seq<u8>,
}

/// One message of the protocol: an id, the message length, and the payload.
#[derive(Debug)]
pub struct Message {
    Id: u32,
    DataLen: usize,
    Data: Vec<u8>,
}

impl View for Message {
    type V = MessageView;

    closed spec fn view(&self) -> MessageView {
        MessageView { id: self.Id, data_len: self.DataLen, data: self.Data@ }
    }
}

/// Copies the bytes of a slice into a new vector.
fn copy_bytes(src: &[u8]) -> (res: Vec<u8>)
    ensures
        res@ == src@,
{
    let mut res: Vec<u8> = Vec::with_capacity(src.len());
    let mut i: usize = 0;
    while i < src.len()
        invariant
            i <= src@.len(),
            res@ == src@.subrange(0, i as int),
        decreases src@.len() - i,
    {
        res.push(src[i]);
        i = i + 1;
    }
    res
}

/// The bytes of a vector in reverse order.
fn reversed_bytes(src: &Vec<u8>) -> (res: Vec<u8>)
    ensures
        res@ == src@.reverse(),
{
    let mut res: Vec<u8> = Vec::with_capacity(src.len());
    let n = src.len();
    let mut i: usize = 0;
    while i < n
        invariant
            n == src@.len(),
            i <= n,
            res@.len() == i,
            forall|k: int| 0 <= k < i ==> res@[k] == src@[n - 1 - k],
        decreases n - i,
    {
        res.push(src[n - 1 - i]);
        i = i + 1;
    }
    assert(res@ =~= src@.reverse());
    res
}

impl Clone for Message {
    fn clone(&self) -> (res: Self)
        ensures
            res@ == self@,
    {
        Message { Id: self.Id, DataLen: self.DataLen, Data: copy_bytes(self.Data.as_slice()) }
    }
}

impl Message {
    /// Creates a message with the given id and payload; its length is the payload's.
    pub fn new(id: u32, data: Vec<u8>) -> (res: Self)
        ensures
            res@ == (MessageView { id, data_len: data@.len() as usize, data: data@ }),
    {
        let len = data.len();
        Message { Id: id, DataLen: len, Data: data }
    }

    /// The message length.
    pub fn GetDataLen(&self) -> (res: usize)
        ensures
            res == self@.data_len,
    {
        self.DataLen
    }

    /// The message id.
    pub fn GetMsgId(&self) -> (res: u32)
        ensures
            res == self@.id,
    {
        self.Id
    }

    /// A copy of the payload.
    pub fn GetData(&self) -> (res: Vec<u8>)
        ensures
            res@ == self@.data,
    {
        copy_bytes(self.Data.as_slice())
    }

    /// Sets the message length.
    pub fn SetDataLen(&mut self, len: usize)
        ensures
            final(self)@ == (MessageView { data_len: len, ..old(self)@ }),
    {
        self.DataLen = len
    }

    /// Sets the message id.
    pub fn SetMsgId(&mut self, msgId: u32)
        ensures
            final(self)@ == (MessageView { id: msgId, ..old(self)@ }),
    {
        self.Id = msgId
    }

    /// Replaces the payload.
    pub fn SetData(&mut self, data: Vec<u8>)
        ensures
            final(self)@ == (MessageView { data: data@, ..old(self)@ }),
    {
        self.Data = data
    }

    /// Reverses the payload in place.
    pub fn reverse(&mut self)
        ensures
            final(self)@ == (MessageView { data: old(self)@.data.reverse(), ..old(self)@ }),
    {
        let r = reversed_bytes(&self.Data);
        self.Data = r;
    }

    /// The payload, borrowed.
    pub fn data(&self) -> (res: &[u8])
        ensures
            res@ == self@.data,
    {
        self.Data.as_slice()
    }
}

} // verus!
