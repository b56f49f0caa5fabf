//! The segment container: a decoded header bound to a payload region, with
//! exact offset bookkeeping. The payload is stored either as an owned copy of
//! the region (buffered) or as nothing but the recorded window over the shared
//! source (mapped, zero-copy); which strategy a segment uses is chosen at
//! construction time.

use crate::error::NitfError;
use crate::header::{header_end, primary_header_ok, NitfHeader};
use crate::source::DataSource;
use crate::stream::ByteStream;
use crate::types::NitfField;
use vstd::prelude::*;
use vstd::slice::{slice_subrange, slice_to_vec};

verus! {

/// A segment header kind. A header decodes itself from the cursor; its three
/// spec functions say exactly when the decode succeeds, where it ends, and
/// what the decoded value states about the source bytes.
pub trait NitfSegmentHeader: Sized {
    /// Decoding succeeds from `bytes` at `pos`, with `size_hint` the
    /// externally declared header size (zero when not known in advance).
    spec fn parse_ok(bytes: Seq<u8>, pos: int, size_hint: int) -> bool;

    /// Position of the first byte past the header, when decoding succeeds.
    spec fn parse_end(bytes: Seq<u8>, pos: int, size_hint: int) -> int;

    /// The decoded header is faithful to `bytes` over `[start, end_)`.
    spec fn wf_parsed(&self, bytes: Seq<u8>, start: int, end_: int) -> bool;

    /// Decode one header at the cursor. `size_hint` is the externally
    /// declared header size, or zero when the header's own field widths
    /// self-terminate it.
    fn decode(stream: &mut ByteStream, size_hint: usize) -> (r: Result<Self, NitfError>)
        ensures
            final(stream).src == old(stream).src,
            old(stream).pos <= final(stream).pos,
            r is Ok <==> Self::parse_ok(
                old(stream).bytes(),
                old(stream).pos as int,
                size_hint as int,
            ),
            r is Ok ==> {
                &&& final(stream).pos as int == Self::parse_end(
                    old(stream).bytes(),
                    old(stream).pos as int,
                    size_hint as int,
                )
                &&& final(stream).pos as int <= old(stream).bytes().len()
            },
            r matches Ok(h) ==> h.wf_parsed(
                old(stream).bytes(),
                old(stream).pos as int,
                final(stream).pos as int,
            ),
            r matches Err(e) ==> e is InvalidCount || e is TruncatedRead,
    ;
}

/// A subheader whose named fields are not itemized by this crate: the whole
/// header region is kept raw as one field, its width the externally declared
/// size from the manifest.
#[derive(Clone, Debug, Hash)]
pub struct OpaqueHeader {
    /// The whole header region, raw.
    pub raw: NitfField,
}

impl NitfSegmentHeader for OpaqueHeader {
    open spec fn parse_ok(bytes: Seq<u8>, pos: int, size_hint: int) -> bool {
        pos + size_hint <= bytes.len()
    }

    open spec fn parse_end(bytes: Seq<u8>, pos: int, size_hint: int) -> int {
        pos + size_hint
    }

    open spec fn wf_parsed(&self, bytes: Seq<u8>, start: int, end_: int) -> bool {
        &&& self.raw.faithful(bytes)
        &&& self.raw.wf()
        &&& self.raw.offset as int == start
        &&& start + self.raw.length as int == end_
    }

    fn decode(stream: &mut ByteStream, size_hint: usize) -> (r: Result<Self, NitfError>) {
        let mut raw = NitfField::default();
        match raw.read(stream, size_hint) {
            Ok(()) => Ok(OpaqueHeader { raw }),
            Err(e) => Err(e),
        }
    }
}

impl NitfSegmentHeader for NitfHeader {
    open spec fn parse_ok(bytes: Seq<u8>, pos: int, size_hint: int) -> bool {
        primary_header_ok(bytes, pos)
    }

    open spec fn parse_end(bytes: Seq<u8>, pos: int, size_hint: int) -> int {
        header_end(bytes, pos)
    }

    open spec fn wf_parsed(&self, bytes: Seq<u8>, start: int, end_: int) -> bool {
        &&& self.wf_header(bytes, start)
        &&& end_ == header_end(bytes, start)
    }

    fn decode(stream: &mut ByteStream, _size_hint: usize) -> (r: Result<Self, NitfError>) {
        NitfHeader::from_reader(stream)
    }
}

/// How a segment stores its payload: an exclusively owned copy of the data
/// region, or nothing at all beyond the recorded window, the bytes staying in
/// the shared zero-copy source.
#[derive(Clone, Debug, Hash)]
pub enum SegmentPayload {
    Buffered(Vec<u8>),
    Mapped,
}

/// A segment read without error from `bytes` at `pos` with the given declared
/// sizes: its header decodes, the self-described header size agrees with the
/// declared one where both are known, and the payload region lies inside the
/// source.
pub open spec fn seg_parse_ok<T: NitfSegmentHeader>(
    bytes: Seq<u8>,
    pos: int,
    header_size: int,
    data_size: int,
) -> bool {
    &&& T::parse_ok(bytes, pos, header_size)
    &&& (header_size != 0 ==> T::parse_end(bytes, pos, header_size) == pos + header_size)
    &&& T::parse_end(bytes, pos, header_size) + data_size <= bytes.len()
}

/// A decoded header bound to its payload region. `header_offset` is the file
/// offset the header was read at, `data_offset` the first byte of the
/// payload, and `data_offset == header_offset + header_size` always.
#[derive(Clone, Debug, Hash)]
pub struct Segment<T> {
    /// Decoded header value.
    pub meta: T,
    /// Payload storage; the window over the source is authoritative.
    pub data: SegmentPayload,
    /// Byte offset of the header start.
    pub header_offset: usize,
    /// Byte size of the header.
    pub header_size: usize,
    /// Byte offset of the payload start.
    pub data_offset: usize,
    /// Byte size of the payload.
    pub data_size: usize,
}

impl<T> Segment<T> {
    /// The payload is stored as an owned copy.
    pub open spec fn payload_buffered(&self) -> bool {
        match self.data {
            SegmentPayload::Buffered(_) => true,
            SegmentPayload::Mapped => false,
        }
    }

    /// The owned payload copy, when the segment is buffered.
    pub open spec fn buffer(&self) -> Seq<u8> {
        match self.data {
            SegmentPayload::Buffered(v) => v@,
            SegmentPayload::Mapped => Seq::empty(),
        }
    }

    /// The payload bytes of this segment inside the source.
    pub open spec fn window(&self, bytes: Seq<u8>) -> Seq<u8> {
        bytes.subrange(self.data_offset as int, self.data_offset + self.data_size as int)
    }
}

impl<T: NitfSegmentHeader> Segment<T> {
    /// The segment's offset bookkeeping is exact with respect to the source:
    /// the data offset is the header offset plus the header size, the payload
    /// region lies inside the source, and a buffered copy equals the window
    /// it was copied from.
    pub open spec fn window_wf(&self, bytes: Seq<u8>) -> bool {
        &&& self.data_offset as int == self.header_offset + self.header_size as int
        &&& self.data_offset + self.data_size as int <= bytes.len()
        &&& (self.payload_buffered() ==> self.buffer() == self.window(bytes))
    }

    /// The segment is well formed with respect to the source it was read
    /// from: its bookkeeping is exact and its header is faithful to the
    /// header region.
    pub open spec fn wf(&self, bytes: Seq<u8>) -> bool {
        &&& self.window_wf(bytes)
        &&& self.meta.wf_parsed(bytes, self.header_offset as int, self.data_offset as int)
    }

    /// Read one segment at the cursor, copying its payload into an owned
    /// buffer and leaving the cursor on the first byte after the payload.
    /// When `header_size` is zero the true header size is derived from the
    /// cursor's advance over the self-terminating header; otherwise the two
    /// must agree, else [`NitfError::StructuralMismatch`]. Fails with
    /// [`NitfError::TruncatedRead`] when the source ends inside the header or
    /// payload, and with [`NitfError::InvalidCount`] when a dependent count
    /// inside the header does not parse.
    pub fn from_reader(
        stream: &mut ByteStream,
        header_size: usize,
        data_size: usize,
    ) -> (r: Result<Segment<T>, NitfError>)
        ensures
            final(stream).src == old(stream).src,
            old(stream).pos <= final(stream).pos,
            r is Ok <==> seg_parse_ok::<T>(
                old(stream).bytes(),
                old(stream).pos as int,
                header_size as int,
                data_size as int,
            ),
            r matches Ok(s) ==> {
                &&& s.wf(old(stream).bytes())
                &&& s.header_offset == old(stream).pos
                &&& s.header_offset + s.header_size == T::parse_end(
                    old(stream).bytes(),
                    old(stream).pos as int,
                    header_size as int,
                )
                &&& (header_size != 0 ==> s.header_size == header_size)
                &&& s.data_size == data_size
                &&& s.payload_buffered()
                &&& final(stream).pos as int == s.data_offset + data_size
            },
            ({
                let bytes = old(stream).bytes();
                let pos = old(stream).pos as int;
                T::parse_ok(bytes, pos, header_size as int) && header_size != 0
                    && T::parse_end(bytes, pos, header_size as int) != pos + header_size ==> r
                    == Err::<Segment<T>, NitfError>(NitfError::StructuralMismatch {
                    declared: header_size as u64,
                    actual: (T::parse_end(bytes, pos, header_size as int) - pos) as u64,
                    offset: pos as u64,
                })
            }),
            r matches Err(e) ==> e is InvalidCount || e is TruncatedRead
                || e is StructuralMismatch,
    {
        let header_offset = stream.pos;
        let meta = match T::decode(stream, header_size) {
            Ok(h) => h,
            Err(e) => {
                return Err(e);
            },
        };
        let actual = stream.pos - header_offset;
        let true_header_size: usize = if header_size == 0 {
            actual
        } else {
            if actual != header_size {
                return Err(NitfError::StructuralMismatch {
                    declared: header_size as u64,
                    actual: actual as u64,
                    offset: header_offset as u64,
                });
            }
            header_size
        };
        let data_offset = stream.pos;
        let data = match stream.read_bytes(data_size) {
            Ok(v) => v,
            Err(e) => {
                return Err(e);
            },
        };
        Ok(Segment {
            meta,
            data: SegmentPayload::Buffered(data),
            header_offset,
            header_size: true_header_size,
            data_offset,
            data_size,
        })
    }

    /// Read one segment at the cursor without copying its payload: the
    /// segment records only the payload window over the shared source, and
    /// the cursor is moved past the payload. Sizes, agreement checks and
    /// failures are as in [`Segment::from_reader`].
    pub fn from_reader_mapped(
        stream: &mut ByteStream,
        header_size: usize,
        data_size: usize,
    ) -> (r: Result<Segment<T>, NitfError>)
        ensures
            final(stream).src == old(stream).src,
            old(stream).pos <= final(stream).pos,
            r is Ok <==> seg_parse_ok::<T>(
                old(stream).bytes(),
                old(stream).pos as int,
                header_size as int,
                data_size as int,
            ),
            r matches Ok(s) ==> {
                &&& s.wf(old(stream).bytes())
                &&& s.header_offset == old(stream).pos
                &&& s.header_offset + s.header_size == T::parse_end(
                    old(stream).bytes(),
                    old(stream).pos as int,
                    header_size as int,
                )
                &&& (header_size != 0 ==> s.header_size == header_size)
                &&& s.data_size == data_size
                &&& !s.payload_buffered()
                &&& final(stream).pos as int == s.data_offset + data_size
            },
            ({
                let bytes = old(stream).bytes();
                let pos = old(stream).pos as int;
                T::parse_ok(bytes, pos, header_size as int) && header_size != 0
                    && T::parse_end(bytes, pos, header_size as int) != pos + header_size ==> r
                    == Err::<Segment<T>, NitfError>(NitfError::StructuralMismatch {
                    declared: header_size as u64,
                    actual: (T::parse_end(bytes, pos, header_size as int) - pos) as u64,
                    offset: pos as u64,
                })
            }),
            r matches Err(e) ==> e is InvalidCount || e is TruncatedRead
                || e is StructuralMismatch,
    {
        let header_offset = stream.pos;
        let meta = match T::decode(stream, header_size) {
            Ok(h) => h,
            Err(e) => {
                return Err(e);
            },
        };
        let actual = stream.pos - header_offset;
        let true_header_size: usize = if header_size == 0 {
            actual
        } else {
            if actual != header_size {
                return Err(NitfError::StructuralMismatch {
                    declared: header_size as u64,
                    actual: actual as u64,
                    offset: header_offset as u64,
                });
            }
            header_size
        };
        let data_offset = stream.pos;
        match stream.skip(data_size) {
            Ok(()) => {},
            Err(e) => {
                return Err(e);
            },
        }
        Ok(Segment {
            meta,
            data: SegmentPayload::Mapped,
            header_offset,
            header_size: true_header_size,
            data_offset,
            data_size,
        })
    }

    /// Read one buffered segment into `self`, as [`Segment::from_reader`]
    /// does; on failure `self` is left unchanged.
    pub fn read(
        &mut self,
        stream: &mut ByteStream,
        header_size: usize,
        data_size: usize,
    ) -> (r: Result<(), NitfError>)
        ensures
            final(stream).src == old(stream).src,
            old(stream).pos <= final(stream).pos,
            r is Ok <==> seg_parse_ok::<T>(
                old(stream).bytes(),
                old(stream).pos as int,
                header_size as int,
                data_size as int,
            ),
            r is Ok ==> {
                &&& final(self).wf(old(stream).bytes())
                &&& final(self).header_offset == old(stream).pos
                &&& (header_size != 0 ==> final(self).header_size == header_size)
                &&& final(self).data_size == data_size
                &&& final(self).payload_buffered()
                &&& final(stream).pos as int == final(self).data_offset + data_size
            },
            r is Err ==> *final(self) == *old(self),
            r matches Err(e) ==> e is InvalidCount || e is TruncatedRead
                || e is StructuralMismatch,
    {
        match Self::from_reader(stream, header_size, data_size) {
            Ok(s) => {
                *self = s;
                Ok(())
            },
            Err(e) => Err(e),
        }
    }

    /// The payload bytes as an owned copy: the buffered copy itself, or the
    /// window copied out of the shared source.
    pub fn read_data(&self, src: &DataSource) -> (r: Vec<u8>)
        requires
            self.window_wf(src.bytes()),
        ensures
            r@ == self.window(src.bytes()),
            r@.len() == self.data_size,
    {
        match &self.data {
            SegmentPayload::Buffered(v) => slice_to_vec(v.as_slice()),
            SegmentPayload::Mapped => {
                let all = src.as_bytes();
                let _source_len = all.len();
                let region = slice_subrange(all, self.data_offset, self.data_offset + self.data_size);
                slice_to_vec(region)
            },
        }
    }

    /// The payload bytes `start..end`, counted from the start of the data
    /// region, as a borrowed zero-copy slice of the shared source. A pure
    /// read: the same range yields the same bytes on every call. Fails with
    /// [`NitfError::RangeOutOfBounds`] exactly when the range does not lie
    /// inside `[0, data_size]`.
    pub fn read_data_bytes<'a>(
        &self,
        src: &'a DataSource,
        start: usize,
        end: usize,
    ) -> (r: Result<&'a [u8], NitfError>)
        requires
            self.window_wf(src.bytes()),
        ensures
            r is Ok <==> start <= end <= self.data_size,
            r matches Ok(s) ==> {
                &&& s@ == src.bytes().subrange(
                    self.data_offset + start,
                    self.data_offset + end as int,
                )
                &&& s@.len() == end - start
            },
            r matches Err(e) ==> e == (NitfError::RangeOutOfBounds {
                start: start as u64,
                end: end as u64,
                data_size: self.data_size as u64,
            }),
    {
        if start > end || end > self.data_size {
            return Err(NitfError::RangeOutOfBounds {
                start: start as u64,
                end: end as u64,
                data_size: self.data_size as u64,
            });
        }
        let all = src.as_bytes();
        let _source_len = all.len();
        Ok(slice_subrange(all, self.data_offset + start, self.data_offset + end))
    }
}


/// Law: `data_offset == header_offset + header_size` holds for every
/// well-formed segment container, whatever its header kind, storage strategy
/// or source.
pub proof fn lemma_segment_offsets<T: NitfSegmentHeader>(s: Segment<T>, bytes: Seq<u8>)
    requires
        s.wf(bytes),
    ensures
        s.data_offset as int == s.header_offset + s.header_size as int,
        s.data_offset + s.data_size as int <= bytes.len(),
{
}


/// Law: the payload window of a well-formed segment holds exactly
/// `data_size` bytes, so a full-window read returns exactly that many; the
/// window is a pure function of the segment and the source, so repeated reads
/// of the same range return the same bytes.
pub proof fn lemma_window_exact<T: NitfSegmentHeader>(s: Segment<T>, bytes: Seq<u8>)
    requires
        s.wf(bytes),
    ensures
        s.window(bytes).len() == s.data_size,
{
}

} // verus!
