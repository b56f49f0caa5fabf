//! A cursor over a [`DataSource`]. Decoding is strictly sequential: every
//! field and segment read starts at the position the previous read left, and
//! the position only ever moves forward.

use crate::error::NitfError;
use crate::source::DataSource;
use vstd::prelude::*;
use vstd::slice::{slice_subrange, slice_to_vec};

verus! {

/// A byte source together with the position of the next read.
pub struct ByteStream {
    pub src: DataSource,
    pub pos: usize,
}

impl ByteStream {
    /// The contents of the underlying source.
    pub open spec fn bytes(&self) -> Seq<u8> {
        self.src.bytes()
    }

    /// True when a read of `n` bytes at the current position stays inside the
    /// source.
    pub open spec fn can_read(&self, n: int) -> bool {
        self.pos + n <= self.bytes().len()
    }

    /// Open a source for decoding, positioned at its first byte.
    pub fn open(src: DataSource) -> (r: ByteStream)
        ensures
            r.src == src,
            r.pos == 0,
    {
        ByteStream { src, pos: 0 }
    }

    /// Current position, as a file offset.
    pub fn stream_position(&self) -> (r: u64)
        ensures
            r == self.pos as u64,
    {
        self.pos as u64
    }

    /// Copy out exactly `n` bytes at the cursor and advance past them. Fails
    /// with [`NitfError::TruncatedRead`] when fewer than `n` bytes remain, and
    /// then leaves the stream unchanged.
    pub fn read_bytes(&mut self, n: usize) -> (r: Result<Vec<u8>, NitfError>)
        ensures
            final(self).src == old(self).src,
            r is Ok <==> old(self).can_read(n as int),
            r matches Ok(v) ==> {
                &&& final(self).pos == old(self).pos + n
                &&& v@ == old(self).bytes().subrange(
                    old(self).pos as int,
                    old(self).pos + n,
                )
            },
            r is Err ==> final(self).pos == old(self).pos,
            r matches Err(e) ==> e == (NitfError::TruncatedRead {
                offset: old(self).pos as u64,
                requested: n as u64,
                available: old(self).bytes().len() as u64,
            }),
    {
        let data = self.src.as_bytes();
        if self.pos > data.len() || n > data.len() - self.pos {
            return Err(NitfError::TruncatedRead {
                offset: self.pos as u64,
                requested: n as u64,
                available: data.len() as u64,
            });
        }
        let region = slice_subrange(data, self.pos, self.pos + n);
        let out = slice_to_vec(region);
        self.pos = self.pos + n;
        Ok(out)
    }

    /// Advance the cursor `n` bytes without copying anything, as when the
    /// cursor is moved past a payload region that stays zero-copy. Fails with
    /// [`NitfError::TruncatedRead`] when fewer than `n` bytes remain.
    pub fn skip(&mut self, n: usize) -> (r: Result<(), NitfError>)
        ensures
            final(self).src == old(self).src,
            r is Ok <==> old(self).can_read(n as int),
            r is Ok ==> final(self).pos == old(self).pos + n,
            r is Err ==> final(self).pos == old(self).pos,
            r matches Err(e) ==> e == (NitfError::TruncatedRead {
                offset: old(self).pos as u64,
                requested: n as u64,
                available: old(self).bytes().len() as u64,
            }),
    {
        let len = self.src.len();
        if self.pos > len || n > len - self.pos {
            return Err(NitfError::TruncatedRead {
                offset: self.pos as u64,
                requested: n as u64,
                available: len as u64,
            });
        }
        self.pos = self.pos + n;
        Ok(())
    }
}

} // verus!
