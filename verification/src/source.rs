//! The byte source a container is decoded from: either an owned in-memory
//! buffer or a read-only memory map of the whole underlying file. One source
//! is made per decode; every segment windows it by offset and length, so the
//! file is never mapped twice and payload bytes are never copied eagerly.

use std::ops::Deref;
use vstd::prelude::*;

verus! {

#[verifier::external_type_specification]
#[verifier::external_body]
pub struct ExMmap(memmap2::Mmap);

/// The bytes a read-only memory map holds. A map made by `memmap2::Mmap` is
/// an immutable shared view of the file as it was mapped, so its contents are
/// a function of the map value alone.
pub uninterp spec fn mmap_seq(m: &memmap2::Mmap) -> Seq<u8>;

/// Relies on `<memmap2::Mmap as Deref>::deref`: the whole mapped region as a
/// byte slice. The map is read-only, so every call sees the same bytes.
#[verifier::external_body]
fn mmap_bytes<'a>(m: &'a memmap2::Mmap) -> (r: &'a [u8])
    ensures
        r@ == mmap_seq(m),
{
    m.deref()
}

/// A seekable, readable byte source positioned by a [`crate::stream::ByteStream`].
///
/// `Buffered` owns its bytes; `Mapped` is a zero-copy, read-only view of the
/// underlying file, shared by every segment of the decoded container.
#[derive(Debug)]
pub enum DataSource {
    Buffered(Vec<u8>),
    Mapped(memmap2::Mmap),
}

impl DataSource {
    /// The mathematical contents of the source.
    pub open spec fn bytes(&self) -> Seq<u8> {
        match self {
            DataSource::Buffered(v) => v@,
            DataSource::Mapped(m) => mmap_seq(m),
        }
    }

    /// The whole source as one byte slice.
    pub fn as_bytes<'a>(&'a self) -> (r: &'a [u8])
        ensures
            r@ == self.bytes(),
    {
        match self {
            DataSource::Buffered(v) => v.as_slice(),
            DataSource::Mapped(m) => mmap_bytes(m),
        }
    }

    /// Total length of the source in bytes.
    pub fn len(&self) -> (r: usize)
        ensures
            r == self.bytes().len(),
    {
        self.as_bytes().len()
    }
}

} // verus!
