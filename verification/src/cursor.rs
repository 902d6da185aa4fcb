//! A read position over a borrowed byte slice.
use crate::wire::{get_u32_at, u32_from_be_bytes};
use vstd::prelude::*;

verus! {

/// The abstract value of a [`ByteCursor`]: the bytes and the read position.
pub struct CursorView {
    pub data: Seq<u8>,
    pub pos: u64,
}

impl CursorView {
    /// The bytes from the read position to the end (none when the position is past the end).
    pub open spec fn rest(self) -> Seq<u8> {
        if self.pos <= self.data.len() {
            self.data.subrange(self.pos as int, self.data.len() as int)
        } else {
            Seq::empty()
        }
    }
}

/// A position in a byte slice from which reads proceed, as `std::io::Cursor<&[u8]>`
/// is used with the `bytes::Buf` methods.
pub struct ByteCursor<'a> {
    inner: &'a [u8],
    pos: u64,
}

impl<'a> View for ByteCursor<'a> {
    type V = CursorView;

    closed spec fn view(&self) -> CursorView {
        CursorView { data: self.inner@, pos: self.pos }
    }
}

impl<'a> ByteCursor<'a> {
    /// How many bytes lie past the read position, in terms of the fields.
    proof fn lemma_rest_len(&self)
        ensures
            self@.pos <= self@.data.len() ==> self@.rest().len() == self@.data.len() - self@.pos,
            self@.pos > self@.data.len() ==> self@.rest().len() == 0,
            self@.data.len() == self.inner@.len(),
            self@.pos == self.pos,
            self@.data.len() <= usize::MAX,
    {
        assert(vstd::slice::spec_slice_len(self.inner) == self.inner@.len());
    }

    /// A cursor at the start of `inner`.
    pub fn new(inner: &'a [u8]) -> (res: Self)
        ensures
            res@ == (CursorView { data: inner@, pos: 0 }),
    {
        ByteCursor { inner, pos: 0 }
    }

    /// The underlying bytes.
    pub fn get_ref(&self) -> (res: &'a [u8])
        ensures
            res@ == self@.data,
    {
        self.inner
    }

    /// The read position.
    pub fn position(&self) -> (res: u64)
        ensures
            res == self@.pos,
    {
        self.pos
    }

    /// Moves the read position.
    pub fn set_position(&mut self, pos: u64)
        ensures
            final(self)@ == (CursorView { pos, ..old(self)@ }),
    {
        self.pos = pos;
    }

    /// The number of bytes from the read position to the end.
    pub fn remaining(&self) -> (res: usize)
        ensures
            res == self@.rest().len(),
    {
        let len = self.inner.len();
        if self.pos >= len as u64 {
            0
        } else {
            len - (self.pos as usize)
        }
    }

    /// Skips `cnt` bytes.
    pub fn advance(&mut self, cnt: usize)
        requires
            cnt <= old(self)@.rest().len(),
        ensures
            final(self)@.data == old(self)@.data,
            final(self)@.pos == old(self)@.pos + cnt,
            cnt > 0 ==> final(self)@.rest() == old(self)@.rest().subrange(
                cnt as int,
                old(self)@.rest().len() as int,
            ),
    {
        proof {
            self.lemma_rest_len();
        }
        self.pos = self.pos + cnt as u64;
        proof {
            if cnt > 0 {
                assert(final(self)@.rest() =~= old(self)@.rest().subrange(
                    cnt as int,
                    old(self)@.rest().len() as int,
                ));
            }
        }
    }

    /// Reads a big-endian `u32` and moves past it.
    pub fn get_u32(&mut self) -> (res: u32)
        requires
            old(self)@.rest().len() >= 4,
        ensures
            res == u32_from_be_bytes(old(self)@.rest()),
            final(self)@.data == old(self)@.data,
            final(self)@.pos == old(self)@.pos + 4,
            final(self)@.rest() == old(self)@.rest().subrange(4, old(self)@.rest().len() as int),
    {
        proof {
            self.lemma_rest_len();
        }
        let p = self.pos as usize;
        let v = get_u32_at(self.inner, p);
        proof {
            assert(self@.data.subrange(p as int, p + 4) =~= self@.rest().subrange(0, 4));
        }
        self.pos = self.pos + 4;
        proof {
            assert(final(self)@.rest() =~= old(self)@.rest().subrange(
                4,
                old(self)@.rest().len() as int,
            ));
        }
        v
    }

    /// Copies the next `n` bytes into a new vector and moves past them.
    pub fn read_bytes(&mut self, n: usize) -> (res: Vec<u8>)
        requires
            n <= old(self)@.rest().len(),
        ensures
            res@ == old(self)@.rest().subrange(0, n as int),
            final(self)@.data == old(self)@.data,
            final(self)@.pos == old(self)@.pos + n,
    {
        proof {
            self.lemma_rest_len();
        }
        let len = self.inner.len();
        if n == 0 {
            assert(old(self)@.rest().subrange(0, 0) =~= Seq::<u8>::empty());
            return Vec::new();
        }
        let start = self.pos as usize;
        let mut res: Vec<u8> = Vec::with_capacity(n);
        let mut i: usize = 0;
        while i < n
            invariant
                self.pos == start,
                start + n <= self.inner@.len(),
                self.inner@.len() == len,
                i <= n,
                res@ == self.inner@.subrange(start as int, start + i),
            decreases n - i,
        {
            res.push(self.inner[start + i]);
            i = i + 1;
            assert(res@ =~= self.inner@.subrange(start as int, start + i));
        }
        assert(res@ =~= old(self)@.rest().subrange(0, n as int));
        self.pos = self.pos + n as u64;
        res
    }
}

} // verus!
