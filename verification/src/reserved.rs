//! The reserved-extension subheader: twenty fixed-width fields followed by a
//! user-defined field whose width is the decoded value of the field before it,
//! so the subheader's own contents terminate it. Its payload (the
//! user-defined data region) lives in the segment container, windowed by the
//! manifest's item size.

use crate::error::NitfError;
use crate::header::{field_at, field_ok};
use crate::segment::NitfSegmentHeader;
use crate::stream::ByteStream;
use crate::types::{count_parses, dec_value, parse_count, NitfField};
use vstd::prelude::*;
use vstd::string::StringExecFns;

verus! {

/// Width of the fixed leading fields, `RE` through `RESSHL`.
pub open spec fn res_fixed_len() -> int {
    200
}

/// Offset of the user-defined subheader length field `RESSHL`.
pub open spec fn resshl_pos(start: int) -> int {
    start + 196
}

/// Decoded width of the user-defined subheader field `RESSHF`. Meaningful
/// when `RESSHL` parses as a count.
pub open spec fn resshf_len(bytes: Seq<u8>, start: int) -> int {
    dec_value(field_at(bytes, resshl_pos(start), 4))
}

/// A reserved-extension subheader decodes without error from `bytes` at
/// `start`: the fixed fields fit, `RESSHL` parses, and the `RESSHF` field it
/// sizes fits.
pub open spec fn res_ok(bytes: Seq<u8>, start: int) -> bool {
    &&& start + res_fixed_len() <= bytes.len()
    &&& count_parses(field_at(bytes, resshl_pos(start), 4))
    &&& start + res_fixed_len() + resshf_len(bytes, start) <= bytes.len()
}

/// Offset of the first byte past the subheader.
pub open spec fn res_end(bytes: Seq<u8>, start: int) -> int {
    start + res_fixed_len() + resshf_len(bytes, start)
}

/// The decoded reserved-extension subheader, field for field as it stands on
/// the wire. The user-defined data region that follows it is the segment's
/// payload and lives in the container, not here.
#[derive(Clone, Debug, Hash)]
#[allow(non_snake_case)]
pub struct ReservedExtensionSegment {
    /// File Part Type
    pub RE: NitfField,
    /// Unique RES Type Identifier
    pub RESID: NitfField,
    /// Version of the Data Definition
    pub RESVER: NitfField,
    /// Security Classification
    pub RECLAS: NitfField,
    /// Security Classification System
    pub RECLSY: NitfField,
    /// Codewords
    pub RECODE: NitfField,
    /// Control and Handling
    pub RECTLH: NitfField,
    /// Releasing Instructions
    pub REREL: NitfField,
    /// Declassification Type
    pub REDCTP: NitfField,
    /// Declassification Date
    pub REDCDT: NitfField,
    /// Declassification Exemption
    pub REDCXM: NitfField,
    /// Downgrade
    pub REDG: NitfField,
    /// Downgrade Date
    pub REDGDT: NitfField,
    /// Classification Text
    pub RECLTX: NitfField,
    /// Classification Authority Type
    pub RECATP: NitfField,
    /// Classification Authority
    pub RECAUT: NitfField,
    /// Classification Reason
    pub RECRSN: NitfField,
    /// Security Source Date
    pub RESRDT: NitfField,
    /// Security Control Number
    pub RECTLN: NitfField,
    /// User-defined Subheader Length
    pub RESSHL: NitfField,
    /// User-Defined Subheader Fields, `RESSHL` bytes wide
    pub RESSHF: NitfField,
}

impl ReservedExtensionSegment {
    /// Every field is faithful to the source at its format-mandated offset,
    /// the user-defined field as wide as `RESSHL` declares.
    pub open spec fn chained_from(&self, bytes: Seq<u8>, start: int) -> bool {
        &&& field_ok(self.RE, bytes, start, 2)
        &&& field_ok(self.RESID, bytes, start + 2, 25)
        &&& field_ok(self.RESVER, bytes, start + 27, 2)
        &&& field_ok(self.RECLAS, bytes, start + 29, 1)
        &&& field_ok(self.RECLSY, bytes, start + 30, 2)
        &&& field_ok(self.RECODE, bytes, start + 32, 11)
        &&& field_ok(self.RECTLH, bytes, start + 43, 2)
        &&& field_ok(self.REREL, bytes, start + 45, 20)
        &&& field_ok(self.REDCTP, bytes, start + 65, 2)
        &&& field_ok(self.REDCDT, bytes, start + 67, 8)
        &&& field_ok(self.REDCXM, bytes, start + 75, 4)
        &&& field_ok(self.REDG, bytes, start + 79, 1)
        &&& field_ok(self.REDGDT, bytes, start + 80, 8)
        &&& field_ok(self.RECLTX, bytes, start + 88, 43)
        &&& field_ok(self.RECATP, bytes, start + 131, 1)
        &&& field_ok(self.RECAUT, bytes, start + 132, 40)
        &&& field_ok(self.RECRSN, bytes, start + 172, 1)
        &&& field_ok(self.RESRDT, bytes, start + 173, 8)
        &&& field_ok(self.RECTLN, bytes, start + 181, 15)
        &&& field_ok(self.RESSHL, bytes, resshl_pos(start), 4)
        &&& field_ok(self.RESSHF, bytes, start + res_fixed_len(), resshf_len(bytes, start))
    }

    /// Decode one reserved-extension subheader at the cursor: the twenty
    /// fixed fields in file order, then the user-defined field whose width is
    /// the decoded value of `RESSHL`. Succeeds exactly when the whole
    /// subheader lies inside the source; a `RESSHL` that does not parse is
    /// reported as [`NitfError::InvalidCount`] naming its offset, a source
    /// that ends inside the subheader as [`NitfError::TruncatedRead`].
    pub fn read(&mut self, stream: &mut ByteStream) -> (r: Result<(), NitfError>)
        ensures
            final(stream).src == old(stream).src,
            old(stream).pos <= final(stream).pos,
            r is Ok <==> res_ok(old(stream).bytes(), old(stream).pos as int),
            r is Ok ==> {
                &&& final(self).chained_from(old(stream).bytes(), old(stream).pos as int)
                &&& final(stream).pos as int == res_end(old(stream).bytes(), old(stream).pos as int)
            },
            r matches Err(e) ==> e is InvalidCount || e is TruncatedRead,
            ({
                let bytes = old(stream).bytes();
                let start = old(stream).pos as int;
                start + res_fixed_len() <= bytes.len() && !count_parses(
                    field_at(bytes, resshl_pos(start), 4),
                ) ==> r == Err::<(), NitfError>(NitfError::InvalidCount {
                    offset: resshl_pos(start) as u64,
                })
            }),
    {
        match self.RE.read(stream, 2) {
            Ok(()) => {},
            Err(e) => {
                return Err(e);
            },
        }
        match self.RESID.read(stream, 25) {
            Ok(()) => {},
            Err(e) => {
                return Err(e);
            },
        }
        match self.RESVER.read(stream, 2) {
            Ok(()) => {},
            Err(e) => {
                return Err(e);
            },
        }
        match self.RECLAS.read(stream, 1) {
            Ok(()) => {},
            Err(e) => {
                return Err(e);
            },
        }
        match self.RECLSY.read(stream, 2) {
            Ok(()) => {},
            Err(e) => {
                return Err(e);
            },
        }
        match self.RECODE.read(stream, 11) {
            Ok(()) => {},
            Err(e) => {
                return Err(e);
            },
        }
        match self.RECTLH.read(stream, 2) {
            Ok(()) => {},
            Err(e) => {
                return Err(e);
            },
        }
        match self.REREL.read(stream, 20) {
            Ok(()) => {},
            Err(e) => {
                return Err(e);
            },
        }
        match self.REDCTP.read(stream, 2) {
            Ok(()) => {},
            Err(e) => {
                return Err(e);
            },
        }
        match self.REDCDT.read(stream, 8) {
            Ok(()) => {},
            Err(e) => {
                return Err(e);
            },
        }
        match self.REDCXM.read(stream, 4) {
            Ok(()) => {},
            Err(e) => {
                return Err(e);
            },
        }
        match self.REDG.read(stream, 1) {
            Ok(()) => {},
            Err(e) => {
                return Err(e);
            },
        }
        match self.REDGDT.read(stream, 8) {
            Ok(()) => {},
            Err(e) => {
                return Err(e);
            },
        }
        match self.RECLTX.read(stream, 43) {
            Ok(()) => {},
            Err(e) => {
                return Err(e);
            },
        }
        match self.RECATP.read(stream, 1) {
            Ok(()) => {},
            Err(e) => {
                return Err(e);
            },
        }
        match self.RECAUT.read(stream, 40) {
            Ok(()) => {},
            Err(e) => {
                return Err(e);
            },
        }
        match self.RECRSN.read(stream, 1) {
            Ok(()) => {},
            Err(e) => {
                return Err(e);
            },
        }
        match self.RESRDT.read(stream, 8) {
            Ok(()) => {},
            Err(e) => {
                return Err(e);
            },
        }
        match self.RECTLN.read(stream, 15) {
            Ok(()) => {},
            Err(e) => {
                return Err(e);
            },
        }
        match self.RESSHL.read(stream, 4) {
            Ok(()) => {},
            Err(e) => {
                return Err(e);
            },
        }
        let shf_len = match parse_count(&self.RESSHL.bytes, self.RESSHL.offset) {
            Ok(n) => n,
            Err(e) => {
                return Err(e);
            },
        };
        if shf_len > usize::MAX as u64 {
            let len = stream.src.len();
            return Err(NitfError::TruncatedRead {
                offset: stream.stream_position(),
                requested: shf_len,
                available: len as u64,
            });
        }
        match self.RESSHF.read(stream, shf_len as usize) {
            Ok(()) => {},
            Err(e) => {
                return Err(e);
            },
        }
        Ok(())
    }
}

impl NitfSegmentHeader for ReservedExtensionSegment {
    open spec fn parse_ok(bytes: Seq<u8>, pos: int, size_hint: int) -> bool {
        res_ok(bytes, pos)
    }

    open spec fn parse_end(bytes: Seq<u8>, pos: int, size_hint: int) -> int {
        res_end(bytes, pos)
    }

    open spec fn wf_parsed(&self, bytes: Seq<u8>, start: int, end_: int) -> bool {
        &&& self.chained_from(bytes, start)
        &&& end_ == res_end(bytes, start)
    }

    fn decode(stream: &mut ByteStream, _size_hint: usize) -> (r: Result<Self, NitfError>) {
        let mut hdr = ReservedExtensionSegment::default();
        match hdr.read(stream) {
            Ok(()) => Ok(hdr),
            Err(e) => Err(e),
        }
    }
}

impl Default for ReservedExtensionSegment {
    /// An empty, not-yet-populated subheader.
    fn default() -> (r: Self) {
        ReservedExtensionSegment {
            RE: NitfField::default(),
            RESID: NitfField::default(),
            RESVER: NitfField::default(),
            RECLAS: NitfField::default(),
            RECLSY: NitfField::default(),
            RECODE: NitfField::default(),
            RECTLH: NitfField::default(),
            REREL: NitfField::default(),
            REDCTP: NitfField::default(),
            REDCDT: NitfField::default(),
            REDCXM: NitfField::default(),
            REDG: NitfField::default(),
            REDGDT: NitfField::default(),
            RECLTX: NitfField::default(),
            RECATP: NitfField::default(),
            RECAUT: NitfField::default(),
            RECRSN: NitfField::default(),
            RESRDT: NitfField::default(),
            RECTLN: NitfField::default(),
            RESSHL: NitfField::default(),
            RESSHF: NitfField::default(),
        }
    }
}


impl ReservedExtensionSegment {
    /// The characters the subheader renders as: every field's text, in
    /// declaration order.
    pub open spec fn render_spec(&self) -> Seq<char> {
        "ReservedExtensionSegment: ["@ + self.RE.render_spec()
            + self.RESID.render_spec()
            + self.RESVER.render_spec()
            + self.RECLAS.render_spec()
            + self.RECLSY.render_spec()
            + self.RECODE.render_spec()
            + self.RECTLH.render_spec()
            + self.REREL.render_spec()
            + self.REDCTP.render_spec()
            + self.REDCDT.render_spec()
            + self.REDCXM.render_spec()
            + self.REDG.render_spec()
            + self.REDGDT.render_spec()
            + self.RECLTX.render_spec()
            + self.RECATP.render_spec()
            + self.RECAUT.render_spec()
            + self.RECRSN.render_spec()
            + self.RESRDT.render_spec()
            + self.RECTLN.render_spec()
            + self.RESSHL.render_spec()
            + self.RESSHF.render_spec() + "]"@
    }

    /// Deterministic, order-preserving text rendering of the subheader.
    pub fn render(&self) -> (r: String)
        ensures
            r@ == self.render_spec(),
    {
        let mut out = String::new();
        out.append("ReservedExtensionSegment: [");
        let f = self.RE.render();
        out.append(f.as_str());
        let f = self.RESID.render();
        out.append(f.as_str());
        let f = self.RESVER.render();
        out.append(f.as_str());
        let f = self.RECLAS.render();
        out.append(f.as_str());
        let f = self.RECLSY.render();
        out.append(f.as_str());
        let f = self.RECODE.render();
        out.append(f.as_str());
        let f = self.RECTLH.render();
        out.append(f.as_str());
        let f = self.REREL.render();
        out.append(f.as_str());
        let f = self.REDCTP.render();
        out.append(f.as_str());
        let f = self.REDCDT.render();
        out.append(f.as_str());
        let f = self.REDCXM.render();
        out.append(f.as_str());
        let f = self.REDG.render();
        out.append(f.as_str());
        let f = self.REDGDT.render();
        out.append(f.as_str());
        let f = self.RECLTX.render();
        out.append(f.as_str());
        let f = self.RECATP.render();
        out.append(f.as_str());
        let f = self.RECAUT.render();
        out.append(f.as_str());
        let f = self.RECRSN.render();
        out.append(f.as_str());
        let f = self.RESRDT.render();
        out.append(f.as_str());
        let f = self.RECTLN.render();
        out.append(f.as_str());
        let f = self.RESSHL.render();
        out.append(f.as_str());
        let f = self.RESSHF.render();
        out.append(f.as_str());
        out.append("]");
        out
    }
}

} // verus!
