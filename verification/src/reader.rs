//! Cursor over an in-memory byte buffer.
//!
//! Both binary formats handled by this crate are parsed from a fully loaded
//! buffer. The cursor offers big-endian integer reads whose contracts tie the
//! returned value to the exact bytes consumed, so that every parser contract
//! can speak of the wire bytes directly.

use vstd::prelude::*;

verus! {

/// The only failure a buffer read can produce: the buffer ended before the
/// requested bytes.
#[derive(Clone, Copy, Debug)]
pub enum ReadError {
    UnexpectedEof,
}

/// Big-endian value of two bytes of `s` starting at `i`.
pub open spec fn be16(s: Seq<u8>, i: int) -> int {
    s[i] * 0x100 + s[i + 1]
}

/// Big-endian value of four bytes of `s` starting at `i`.
pub open spec fn be32(s: Seq<u8>, i: int) -> int {
    s[i] * 0x1000000 + s[i + 1] * 0x10000 + s[i + 2] * 0x100 + s[i + 3]
}

/// Big-endian value of eight bytes of `s` starting at `i`.
pub open spec fn be64(s: Seq<u8>, i: int) -> int {
    be32(s, i) * 0x100000000 + be32(s, i + 4)
}

/// A byte buffer with a read position.
pub struct ByteReader {
    data: Vec<u8>,
    pos: usize,
}

impl ByteReader {
    /// The bytes being read.
    pub closed spec fn bytes(&self) -> Seq<u8> {
        self.data@
    }

    /// The current read position.
    pub closed spec fn pos(&self) -> int {
        self.pos as int
    }

    /// The position stays within the buffer.
    pub open spec fn inv(&self) -> bool {
        0 <= self.pos() <= self.bytes().len()
    }

    pub fn new(data: Vec<u8>) -> (r: ByteReader)
        ensures
            r.bytes() == data@,
            r.pos() == 0,
            r.inv(),
    {
        ByteReader { data, pos: 0 }
    }

    pub fn position(&self) -> (r: usize)
        ensures
            r == self.pos(),
    {
        self.pos
    }

    pub fn len(&self) -> (r: usize)
        ensures
            r == self.bytes().len(),
    {
        self.data.len()
    }

    /// Bytes left between the position and the end of the buffer.
    pub fn remaining(&self) -> (r: usize)
        requires
            self.inv(),
        ensures
            r == self.bytes().len() - self.pos(),
    {
        self.data.len() - self.pos
    }

    pub fn seek(&mut self, pos: usize)
        requires
            pos <= old(self).bytes().len(),
        ensures
            final(self).bytes() == old(self).bytes(),
            final(self).pos() == pos,
            final(self).inv(),
    {
        self.pos = pos;
    }

    /// Move the position forward by `n` bytes; fails without moving when
    /// fewer than `n` bytes remain.
    pub fn skip(&mut self, n: usize) -> (r: Result<(), ReadError>)
        requires
            old(self).inv(),
        ensures
            final(self).bytes() == old(self).bytes(),
            final(self).inv(),
            r is Ok ==> old(self).pos() + n <= old(self).bytes().len()
                && final(self).pos() == old(self).pos() + n,
            r is Err ==> old(self).pos() + n > old(self).bytes().len()
                && final(self).pos() == old(self).pos(),
    {
        if n <= self.data.len() - self.pos {
            self.pos = self.pos + n;
            Ok(())
        } else {
            Err(ReadError::UnexpectedEof)
        }
    }

    pub fn read_u8(&mut self) -> (r: Result<u8, ReadError>)
        requires
            old(self).inv(),
        ensures
            final(self).bytes() == old(self).bytes(),
            final(self).inv(),
            r is Ok ==> old(self).pos() + 1 <= old(self).bytes().len()
                && final(self).pos() == old(self).pos() + 1
                && r->Ok_0 == old(self).bytes()[old(self).pos()],
            r is Err ==> old(self).pos() + 1 > old(self).bytes().len()
                && final(self).pos() == old(self).pos(),
    {
        if self.pos < self.data.len() {
            let b = self.data[self.pos];
            self.pos = self.pos + 1;
            Ok(b)
        } else {
            Err(ReadError::UnexpectedEof)
        }
    }

    pub fn read_u16(&mut self) -> (r: Result<u16, ReadError>)
        requires
            old(self).inv(),
        ensures
            final(self).bytes() == old(self).bytes(),
            final(self).inv(),
            r is Ok ==> old(self).pos() + 2 <= old(self).bytes().len()
                && final(self).pos() == old(self).pos() + 2
                && r->Ok_0 == be16(old(self).bytes(), old(self).pos()),
            r is Err ==> old(self).pos() + 2 > old(self).bytes().len()
                && final(self).pos() == old(self).pos(),
    {
        if 2 <= self.data.len() - self.pos {
            let b0 = self.data[self.pos];
            let b1 = self.data[self.pos + 1];
            self.pos = self.pos + 2;
            Ok((b0 as u16) * 0x100 + (b1 as u16))
        } else {
            Err(ReadError::UnexpectedEof)
        }
    }

    pub fn read_u32(&mut self) -> (r: Result<u32, ReadError>)
        requires
            old(self).inv(),
        ensures
            final(self).bytes() == old(self).bytes(),
            final(self).inv(),
            r is Ok ==> old(self).pos() + 4 <= old(self).bytes().len()
                && final(self).pos() == old(self).pos() + 4
                && r->Ok_0 == be32(old(self).bytes(), old(self).pos()),
            r is Err ==> old(self).pos() + 4 > old(self).bytes().len()
                && final(self).pos() == old(self).pos(),
    {
        if 4 <= self.data.len() - self.pos {
            let b0 = self.data[self.pos];
            let b1 = self.data[self.pos + 1];
            let b2 = self.data[self.pos + 2];
            let b3 = self.data[self.pos + 3];
            self.pos = self.pos + 4;
            Ok((b0 as u32) * 0x1000000 + (b1 as u32) * 0x10000 + (b2 as u32) * 0x100
                + (b3 as u32))
        } else {
            Err(ReadError::UnexpectedEof)
        }
    }

    pub fn read_u64(&mut self) -> (r: Result<u64, ReadError>)
        requires
            old(self).inv(),
        ensures
            final(self).bytes() == old(self).bytes(),
            final(self).inv(),
            r is Ok ==> old(self).pos() + 8 <= old(self).bytes().len()
                && final(self).pos() == old(self).pos() + 8
                && r->Ok_0 == be64(old(self).bytes(), old(self).pos()),
            r is Err ==> old(self).pos() + 8 > old(self).bytes().len()
                && final(self).pos() == old(self).pos(),
    {
        if 8 <= self.data.len() - self.pos {
            let hi = match self.read_u32() {
                Ok(v) => v,
                Err(e) => { return Err(e); },
            };
            let lo = match self.read_u32() {
                Ok(v) => v,
                Err(e) => { return Err(e); },
            };
            Ok((hi as u64) * 0x100000000 + (lo as u64))
        } else {
            Err(ReadError::UnexpectedEof)
        }
    }

    /// Read exactly `n` bytes, or fail without moving.
    pub fn read_bytes(&mut self, n: usize) -> (r: Result<Vec<u8>, ReadError>)
        requires
            old(self).inv(),
        ensures
            final(self).bytes() == old(self).bytes(),
            final(self).inv(),
            r is Ok ==> old(self).pos() + n <= old(self).bytes().len()
                && final(self).pos() == old(self).pos() + n
                && r->Ok_0@ == old(self).bytes().subrange(
                    old(self).pos(),
                    old(self).pos() + n,
                ),
            r is Err ==> old(self).pos() + n > old(self).bytes().len()
                && final(self).pos() == old(self).pos(),
    {
        if n <= self.data.len() - self.pos {
            let mut out: Vec<u8> = Vec::new();
            let mut i: usize = 0;
            while i < n
                invariant
                    i <= n,
                    self.pos + n <= self.data.len(),
                    out@ == self.data@.subrange(self.pos as int, self.pos + i),
                decreases n - i,
            {
                out.push(self.data[self.pos + i]);
                proof {
                    assert(out@ == self.data@.subrange(self.pos as int, self.pos + i + 1));
                }
                i = i + 1;
            }
            self.pos = self.pos + n;
            Ok(out)
        } else {
            Err(ReadError::UnexpectedEof)
        }
    }
}

} // verus!
