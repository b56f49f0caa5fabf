//! The primary header: a fixed run of 31 format-mandated fields, then, for
//! each segment kind in format order, a count field and its manifest table.
//! The layout below is the wire layout of the format; only the counts and the
//! manifest tables are data-dependent.

use crate::error::NitfError;
use crate::stream::ByteStream;
use crate::types::{
    count_parses, dec_value, entries_chained, lemma_table_round_trip, render_entries_spec,
    reserialize_entries, run_fits, NitfField, NitfSubHeaderVec,
};
use vstd::prelude::*;
use vstd::string::StringExecFns;

verus! {

/// The bytes of the `width`-byte region of `bytes` that starts at `pos`.
pub open spec fn field_at(bytes: Seq<u8>, pos: int, width: int) -> Seq<u8> {
    bytes.subrange(pos, pos + width)
}

/// Total width of the 31 fixed leading fields, `FHDR` through `HL`.
pub open spec fn hdr_fixed_len() -> int {
    360
}

/// Offset of the image-segment count field, relative to the header start.
pub open spec fn numi_pos(start: int) -> int {
    start + hdr_fixed_len()
}

/// Offset of the image-segment manifest table.
pub open spec fn imh_pos(start: int) -> int {
    numi_pos(start) + 3
}

/// Decoded image-segment count. Meaningful when the count field parses.
pub open spec fn numi_val(bytes: Seq<u8>, start: int) -> int {
    dec_value(field_at(bytes, numi_pos(start), 3))
}

pub open spec fn nums_pos(bytes: Seq<u8>, start: int) -> int {
    imh_pos(start) + numi_val(bytes, start) * 16
}

pub open spec fn graph_pos(bytes: Seq<u8>, start: int) -> int {
    nums_pos(bytes, start) + 3
}

pub open spec fn nums_val(bytes: Seq<u8>, start: int) -> int {
    dec_value(field_at(bytes, nums_pos(bytes, start), 3))
}

pub open spec fn numx_pos(bytes: Seq<u8>, start: int) -> int {
    graph_pos(bytes, start) + nums_val(bytes, start) * 10
}

pub open spec fn numt_pos(bytes: Seq<u8>, start: int) -> int {
    numx_pos(bytes, start) + 3
}

pub open spec fn textfiles_pos(bytes: Seq<u8>, start: int) -> int {
    numt_pos(bytes, start) + 3
}

pub open spec fn numt_val(bytes: Seq<u8>, start: int) -> int {
    dec_value(field_at(bytes, numt_pos(bytes, start), 3))
}

pub open spec fn numdes_pos(bytes: Seq<u8>, start: int) -> int {
    textfiles_pos(bytes, start) + numt_val(bytes, start) * 9
}

pub open spec fn dext_pos(bytes: Seq<u8>, start: int) -> int {
    numdes_pos(bytes, start) + 3
}

pub open spec fn numdes_val(bytes: Seq<u8>, start: int) -> int {
    dec_value(field_at(bytes, numdes_pos(bytes, start), 3))
}

pub open spec fn numres_pos(bytes: Seq<u8>, start: int) -> int {
    dext_pos(bytes, start) + numdes_val(bytes, start) * 13
}

pub open spec fn resh_pos(bytes: Seq<u8>, start: int) -> int {
    numres_pos(bytes, start) + 3
}

pub open spec fn numres_val(bytes: Seq<u8>, start: int) -> int {
    dec_value(field_at(bytes, numres_pos(bytes, start), 3))
}

pub open spec fn udhdl_pos(bytes: Seq<u8>, start: int) -> int {
    resh_pos(bytes, start) + numres_val(bytes, start) * 11
}

/// Offset of the first byte past the primary header.
pub open spec fn header_end(bytes: Seq<u8>, start: int) -> int {
    udhdl_pos(bytes, start) + 10
}


/// The decode has reached the graphic-segment count field: the fixed fields,
/// the image count and the image manifest all lie inside the source.
pub open spec fn numi_stage_ok(bytes: Seq<u8>, start: int) -> bool {
    &&& imh_pos(start) <= bytes.len()
    &&& count_parses(field_at(bytes, numi_pos(start), 3))
    &&& run_fits(imh_pos(start), numi_val(bytes, start), 16, bytes.len() as int)
}

/// The decode has reached the text-segment count field.
pub open spec fn nums_stage_ok(bytes: Seq<u8>, start: int) -> bool {
    &&& numi_stage_ok(bytes, start)
    &&& graph_pos(bytes, start) <= bytes.len()
    &&& count_parses(field_at(bytes, nums_pos(bytes, start), 3))
    &&& run_fits(graph_pos(bytes, start), nums_val(bytes, start), 10, bytes.len() as int)
    &&& numt_pos(bytes, start) <= bytes.len()
}

/// The decode has reached the data-extension count field.
pub open spec fn numt_stage_ok(bytes: Seq<u8>, start: int) -> bool {
    &&& nums_stage_ok(bytes, start)
    &&& textfiles_pos(bytes, start) <= bytes.len()
    &&& count_parses(field_at(bytes, numt_pos(bytes, start), 3))
    &&& run_fits(textfiles_pos(bytes, start), numt_val(bytes, start), 9, bytes.len() as int)
}

/// The decode has reached the reserved-extension count field.
pub open spec fn numdes_stage_ok(bytes: Seq<u8>, start: int) -> bool {
    &&& numt_stage_ok(bytes, start)
    &&& dext_pos(bytes, start) + 3 <= bytes.len()
    &&& count_parses(field_at(bytes, numdes_pos(bytes, start), 3))
    &&& run_fits(dext_pos(bytes, start), numdes_val(bytes, start), 13, bytes.len() as int)
}

/// A primary header decodes without error from `bytes` at `start`: every
/// fixed field fits, every count field parses, and every manifest table fits.
pub open spec fn primary_header_ok(bytes: Seq<u8>, start: int) -> bool {
    let len = bytes.len() as int;
    &&& imh_pos(start) <= len
    &&& count_parses(field_at(bytes, numi_pos(start), 3))
    &&& run_fits(imh_pos(start), numi_val(bytes, start), 16, len)
    &&& graph_pos(bytes, start) <= len
    &&& count_parses(field_at(bytes, nums_pos(bytes, start), 3))
    &&& run_fits(graph_pos(bytes, start), nums_val(bytes, start), 10, len)
    &&& numt_pos(bytes, start) <= len
    &&& textfiles_pos(bytes, start) <= len
    &&& count_parses(field_at(bytes, numt_pos(bytes, start), 3))
    &&& run_fits(textfiles_pos(bytes, start), numt_val(bytes, start), 9, len)
    &&& dext_pos(bytes, start) <= len
    &&& count_parses(field_at(bytes, numdes_pos(bytes, start), 3))
    &&& run_fits(dext_pos(bytes, start), numdes_val(bytes, start), 13, len)
    &&& resh_pos(bytes, start) <= len
    &&& count_parses(field_at(bytes, numres_pos(bytes, start), 3))
    &&& run_fits(resh_pos(bytes, start), numres_val(bytes, start), 11, len)
    &&& header_end(bytes, start) <= len
}

/// The decoded primary header, field for field as it stands on the wire.
#[derive(Clone, Debug, Hash)]
#[allow(non_snake_case)]
pub struct NitfHeader {
    /// File Profile Name
    pub FHDR: NitfField,
    /// File Version
    pub FVER: NitfField,
    /// Complexity Level
    pub CLEVEL: NitfField,
    /// Standard Type
    pub STYPE: NitfField,
    /// Originating Station ID
    pub OSTAID: NitfField,
    /// File Date and Time
    pub FDT: NitfField,
    /// File Title
    pub FTITLE: NitfField,
    /// File Security Classification
    pub FSCLAS: NitfField,
    /// File Classification Security System
    pub FSCLSY: NitfField,
    /// File Codewords
    pub FSCODE: NitfField,
    /// File Control and Handling
    pub FSCTLH: NitfField,
    /// File Releasing Instructions
    pub FSREL: NitfField,
    /// File Declassification Type
    pub FSDCTP: NitfField,
    /// File Declassification Date
    pub FSDCDT: NitfField,
    /// File Declassification Exemption
    pub FSDCXM: NitfField,
    /// File Downgrade
    pub FSDG: NitfField,
    /// File Downgrade Date
    pub FSDGDT: NitfField,
    /// File Classification Text
    pub FSCLTX: NitfField,
    /// File Classification Authority Type
    pub FSCATP: NitfField,
    /// File Classification Authority
    pub FSCAUT: NitfField,
    /// File Classification Reason
    pub FSCRSN: NitfField,
    /// File Security Source Date
    pub FSSRDT: NitfField,
    /// File Security Control Number
    pub FSCTLN: NitfField,
    /// File Copy Number
    pub FSCOP: NitfField,
    /// File Number of Copies
    pub FSCPYS: NitfField,
    /// Encryption
    pub ENCRYP: NitfField,
    /// File Background Color
    pub FBKGC: NitfField,
    /// Originator's Name
    pub ONAME: NitfField,
    /// Originator's Phone Number
    pub OPHONE: NitfField,
    /// File Length
    pub FL: NitfField,
    /// NITF File Header Length
    pub HL: NitfField,
    /// Number of Image Segments
    pub NUMI: NitfField,
    /// Image segment manifest
    pub IMHEADERS: NitfSubHeaderVec,
    /// Number of Graphics Segments
    pub NUMS: NitfField,
    /// Graphic segment manifest
    pub GRAPHHEADERS: NitfSubHeaderVec,
    /// Reserved for future use
    pub NUMX: NitfField,
    /// Number of Text Files
    pub NUMT: NitfField,
    /// Text segment manifest
    pub TEXTFILES: NitfSubHeaderVec,
    /// Number of Data Extension Segments
    pub NUMDES: NitfField,
    /// Data extension segment manifest
    pub DEXTHEADERS: NitfSubHeaderVec,
    /// Number of Reserved Extension Segments
    pub NUMRES: NitfField,
    /// Reserved extension segment manifest
    pub RESHEADERS: NitfSubHeaderVec,
    /// User Defined Header Data Length
    pub UDHDL: NitfField,
    /// Extended Header Data Length
    pub XHDL: NitfField,
}

/// Shorthand for one well-formed header field: faithful to the source, text
/// tagged, sitting at `pos` with width `width`.
pub open spec fn field_ok(f: NitfField, bytes: Seq<u8>, pos: int, width: int) -> bool {
    &&& f.faithful(bytes)
    &&& f.wf()
    &&& f.offset as int == pos
    &&& f.length as int == width
}

impl NitfHeader {
    /// Every field of the decoded header is faithful to the source at its
    /// format-mandated offset, and every manifest table has exactly as many
    /// entries as its count field declares.
    pub open spec fn wf_header(&self, bytes: Seq<u8>, start: int) -> bool {
        &&& field_ok(self.FHDR, bytes, start, 4)
        &&& field_ok(self.FVER, bytes, start + 4, 5)
        &&& field_ok(self.CLEVEL, bytes, start + 9, 2)
        &&& field_ok(self.STYPE, bytes, start + 11, 4)
        &&& field_ok(self.OSTAID, bytes, start + 15, 10)
        &&& field_ok(self.FDT, bytes, start + 25, 14)
        &&& field_ok(self.FTITLE, bytes, start + 39, 80)
        &&& field_ok(self.FSCLAS, bytes, start + 119, 1)
        &&& field_ok(self.FSCLSY, bytes, start + 120, 2)
        &&& field_ok(self.FSCODE, bytes, start + 122, 11)
        &&& field_ok(self.FSCTLH, bytes, start + 133, 2)
        &&& field_ok(self.FSREL, bytes, start + 135, 20)
        &&& field_ok(self.FSDCTP, bytes, start + 155, 2)
        &&& field_ok(self.FSDCDT, bytes, start + 157, 8)
        &&& field_ok(self.FSDCXM, bytes, start + 165, 4)
        &&& field_ok(self.FSDG, bytes, start + 169, 1)
        &&& field_ok(self.FSDGDT, bytes, start + 170, 8)
        &&& field_ok(self.FSCLTX, bytes, start + 178, 43)
        &&& field_ok(self.FSCATP, bytes, start + 221, 1)
        &&& field_ok(self.FSCAUT, bytes, start + 222, 40)
        &&& field_ok(self.FSCRSN, bytes, start + 262, 1)
        &&& field_ok(self.FSSRDT, bytes, start + 263, 8)
        &&& field_ok(self.FSCTLN, bytes, start + 271, 15)
        &&& field_ok(self.FSCOP, bytes, start + 286, 5)
        &&& field_ok(self.FSCPYS, bytes, start + 291, 5)
        &&& field_ok(self.ENCRYP, bytes, start + 296, 1)
        &&& field_ok(self.FBKGC, bytes, start + 297, 3)
        &&& field_ok(self.ONAME, bytes, start + 300, 24)
        &&& field_ok(self.OPHONE, bytes, start + 324, 18)
        &&& field_ok(self.FL, bytes, start + 342, 12)
        &&& field_ok(self.HL, bytes, start + 354, 6)
        &&& field_ok(self.NUMI, bytes, numi_pos(start), 3)
        &&& self.IMHEADERS.val@.len() == numi_val(bytes, start)
        &&& entries_chained(self.IMHEADERS.val@, imh_pos(start), 6, 10, bytes)
        &&& field_ok(self.NUMS, bytes, nums_pos(bytes, start), 3)
        &&& self.GRAPHHEADERS.val@.len() == nums_val(bytes, start)
        &&& entries_chained(self.GRAPHHEADERS.val@, graph_pos(bytes, start), 4, 6, bytes)
        &&& field_ok(self.NUMX, bytes, numx_pos(bytes, start), 3)
        &&& field_ok(self.NUMT, bytes, numt_pos(bytes, start), 3)
        &&& self.TEXTFILES.val@.len() == numt_val(bytes, start)
        &&& entries_chained(self.TEXTFILES.val@, textfiles_pos(bytes, start), 4, 5, bytes)
        &&& field_ok(self.NUMDES, bytes, numdes_pos(bytes, start), 3)
        &&& self.DEXTHEADERS.val@.len() == numdes_val(bytes, start)
        &&& entries_chained(self.DEXTHEADERS.val@, dext_pos(bytes, start), 4, 9, bytes)
        &&& field_ok(self.NUMRES, bytes, numres_pos(bytes, start), 3)
        &&& self.RESHEADERS.val@.len() == numres_val(bytes, start)
        &&& entries_chained(self.RESHEADERS.val@, resh_pos(bytes, start), 4, 7, bytes)
        &&& field_ok(self.UDHDL, bytes, udhdl_pos(bytes, start), 5)
        &&& field_ok(self.XHDL, bytes, udhdl_pos(bytes, start) + 5, 5)
    }
}

impl Default for NitfHeader {
    /// An empty header whose manifest tables hold no entries yet.
    fn default() -> (r: Self)
        ensures
            r.IMHEADERS.val@.len() == 0,
            r.GRAPHHEADERS.val@.len() == 0,
            r.TEXTFILES.val@.len() == 0,
            r.DEXTHEADERS.val@.len() == 0,
            r.RESHEADERS.val@.len() == 0,
    {
        NitfHeader {
            FHDR: NitfField::default(),
            FVER: NitfField::default(),
            CLEVEL: NitfField::default(),
            STYPE: NitfField::default(),
            OSTAID: NitfField::default(),
            FDT: NitfField::default(),
            FTITLE: NitfField::default(),
            FSCLAS: NitfField::default(),
            FSCLSY: NitfField::default(),
            FSCODE: NitfField::default(),
            FSCTLH: NitfField::default(),
            FSREL: NitfField::default(),
            FSDCTP: NitfField::default(),
            FSDCDT: NitfField::default(),
            FSDCXM: NitfField::default(),
            FSDG: NitfField::default(),
            FSDGDT: NitfField::default(),
            FSCLTX: NitfField::default(),
            FSCATP: NitfField::default(),
            FSCAUT: NitfField::default(),
            FSCRSN: NitfField::default(),
            FSSRDT: NitfField::default(),
            FSCTLN: NitfField::default(),
            FSCOP: NitfField::default(),
            FSCPYS: NitfField::default(),
            ENCRYP: NitfField::default(),
            FBKGC: NitfField::default(),
            ONAME: NitfField::default(),
            OPHONE: NitfField::default(),
            FL: NitfField::default(),
            HL: NitfField::default(),
            NUMI: NitfField::default(),
            IMHEADERS: NitfSubHeaderVec { val: Vec::new() },
            NUMS: NitfField::default(),
            GRAPHHEADERS: NitfSubHeaderVec { val: Vec::new() },
            NUMX: NitfField::default(),
            NUMT: NitfField::default(),
            TEXTFILES: NitfSubHeaderVec { val: Vec::new() },
            NUMDES: NitfField::default(),
            DEXTHEADERS: NitfSubHeaderVec { val: Vec::new() },
            NUMRES: NitfField::default(),
            RESHEADERS: NitfSubHeaderVec { val: Vec::new() },
            UDHDL: NitfField::default(),
            XHDL: NitfField::default(),
        }
    }
}

/// Read one fixed-width field at the cursor.
fn read_field(stream: &mut ByteStream, n_bytes: usize) -> (r: Result<NitfField, NitfError>)
    ensures
        final(stream).src == old(stream).src,
        r is Ok <==> old(stream).can_read(n_bytes as int),
        r matches Ok(f) ==> {
            &&& final(stream).pos == old(stream).pos + n_bytes
            &&& field_ok(f, old(stream).bytes(), old(stream).pos as int, n_bytes as int)
        },
        r is Err ==> final(stream).pos == old(stream).pos,
        r matches Err(e) ==> e is TruncatedRead,
{
    let mut f = NitfField::default();
    match f.read(stream, n_bytes) {
        Ok(()) => Ok(f),
        Err(e) => Err(e),
    }
}

/// Read one manifest table whose entry count is the decoded value of
/// `n_field`.
fn read_table(
    stream: &mut ByteStream,
    n_field: &NitfField,
    sh_size: usize,
    item_size: usize,
) -> (r: Result<NitfSubHeaderVec, NitfError>)
    ensures
        final(stream).src == old(stream).src,
        old(stream).pos <= final(stream).pos,
        r is Ok <==> count_parses(n_field.bytes@) && run_fits(
            old(stream).pos as int,
            dec_value(n_field.bytes@),
            sh_size + item_size as int,
            old(stream).bytes().len() as int,
        ),
        r matches Ok(t) ==> {
            &&& t.val@.len() == dec_value(n_field.bytes@)
            &&& entries_chained(
                t.val@,
                old(stream).pos as int,
                sh_size as int,
                item_size as int,
                old(stream).bytes(),
            )
            &&& final(stream).pos as int == old(stream).pos + dec_value(n_field.bytes@) * (
            sh_size + item_size as int)
        },
        !count_parses(n_field.bytes@) ==> r == Err::<NitfSubHeaderVec, NitfError>(
            NitfError::InvalidCount { offset: n_field.offset },
        ) && final(stream).pos == old(stream).pos,
        r matches Err(e) ==> e is InvalidCount || e is TruncatedRead,
{
    let mut t = NitfSubHeaderVec { val: Vec::new() };
    match t.read(stream, n_field, sh_size, item_size) {
        Ok(()) => Ok(t),
        Err(e) => Err(e),
    }
}

impl NitfHeader {
    /// Decode the primary header at the cursor: the 31 fixed fields, then for
    /// each segment kind in format order its count field and manifest table.
    /// No payload is touched. Succeeds exactly when the source holds a whole
    /// primary header at the cursor; a count field that does not parse is
    /// reported as [`NitfError::InvalidCount`] naming that field's offset, a
    /// source that ends inside the header as [`NitfError::TruncatedRead`].
    pub fn from_reader(stream: &mut ByteStream) -> (r: Result<NitfHeader, NitfError>)
        ensures
            final(stream).src == old(stream).src,
            old(stream).pos <= final(stream).pos,
            r is Ok <==> primary_header_ok(old(stream).bytes(), old(stream).pos as int),
            r matches Ok(h) ==> {
                &&& h.wf_header(old(stream).bytes(), old(stream).pos as int)
                &&& final(stream).pos as int == header_end(
                    old(stream).bytes(),
                    old(stream).pos as int,
                )
            },
            r matches Err(e) ==> e is InvalidCount || e is TruncatedRead,
            ({
                let bytes = old(stream).bytes();
                let start = old(stream).pos as int;
                imh_pos(start) <= bytes.len() && !count_parses(field_at(bytes, numi_pos(start), 3))
                    ==> r == Err::<NitfHeader, NitfError>(NitfError::InvalidCount {
                    offset: numi_pos(start) as u64,
                })
            }),
            ({
                let bytes = old(stream).bytes();
                let start = old(stream).pos as int;
                numi_stage_ok(bytes, start) && graph_pos(bytes, start) <= bytes.len()
                    && !count_parses(field_at(bytes, nums_pos(bytes, start), 3)) ==> r == Err::<
                    NitfHeader,
                    NitfError,
                >(NitfError::InvalidCount { offset: nums_pos(bytes, start) as u64 })
            }),
            ({
                let bytes = old(stream).bytes();
                let start = old(stream).pos as int;
                nums_stage_ok(bytes, start) && textfiles_pos(bytes, start) <= bytes.len()
                    && !count_parses(field_at(bytes, numt_pos(bytes, start), 3)) ==> r == Err::<
                    NitfHeader,
                    NitfError,
                >(NitfError::InvalidCount { offset: numt_pos(bytes, start) as u64 })
            }),
            ({
                let bytes = old(stream).bytes();
                let start = old(stream).pos as int;
                numt_stage_ok(bytes, start) && dext_pos(bytes, start) <= bytes.len()
                    && !count_parses(field_at(bytes, numdes_pos(bytes, start), 3)) ==> r == Err::<
                    NitfHeader,
                    NitfError,
                >(NitfError::InvalidCount { offset: numdes_pos(bytes, start) as u64 })
            }),
            ({
                let bytes = old(stream).bytes();
                let start = old(stream).pos as int;
                numdes_stage_ok(bytes, start) && resh_pos(bytes, start) <= bytes.len()
                    && !count_parses(field_at(bytes, numres_pos(bytes, start), 3)) ==> r == Err::<
                    NitfHeader,
                    NitfError,
                >(NitfError::InvalidCount { offset: numres_pos(bytes, start) as u64 })
            }),
    {
        let ghost bytes = stream.bytes();
        let ghost start = stream.pos as int;
        let mut hdr = NitfHeader::default();
        hdr.FHDR = match read_field(stream, 4) {
            Ok(f) => f,
            Err(e) => {
                return Err(e);
            },
        };
        hdr.FVER = match read_field(stream, 5) {
            Ok(f) => f,
            Err(e) => {
                return Err(e);
            },
        };
        hdr.CLEVEL = match read_field(stream, 2) {
            Ok(f) => f,
            Err(e) => {
                return Err(e);
            },
        };
        hdr.STYPE = match read_field(stream, 4) {
            Ok(f) => f,
            Err(e) => {
                return Err(e);
            },
        };
        hdr.OSTAID = match read_field(stream, 10) {
            Ok(f) => f,
            Err(e) => {
                return Err(e);
            },
        };
        hdr.FDT = match read_field(stream, 14) {
            Ok(f) => f,
            Err(e) => {
                return Err(e);
            },
        };
        hdr.FTITLE = match read_field(stream, 80) {
            Ok(f) => f,
            Err(e) => {
                return Err(e);
            },
        };
        hdr.FSCLAS = match read_field(stream, 1) {
            Ok(f) => f,
            Err(e) => {
                return Err(e);
            },
        };
        hdr.FSCLSY = match read_field(stream, 2) {
            Ok(f) => f,
            Err(e) => {
                return Err(e);
            },
        };
        hdr.FSCODE = match read_field(stream, 11) {
            Ok(f) => f,
            Err(e) => {
                return Err(e);
            },
        };
        hdr.FSCTLH = match read_field(stream, 2) {
            Ok(f) => f,
            Err(e) => {
                return Err(e);
            },
        };
        hdr.FSREL = match read_field(stream, 20) {
            Ok(f) => f,
            Err(e) => {
                return Err(e);
            },
        };
        hdr.FSDCTP = match read_field(stream, 2) {
            Ok(f) => f,
            Err(e) => {
                return Err(e);
            },
        };
        hdr.FSDCDT = match read_field(stream, 8) {
            Ok(f) => f,
            Err(e) => {
                return Err(e);
            },
        };
        hdr.FSDCXM = match read_field(stream, 4) {
            Ok(f) => f,
            Err(e) => {
                return Err(e);
            },
        };
        hdr.FSDG = match read_field(stream, 1) {
            Ok(f) => f,
            Err(e) => {
                return Err(e);
            },
        };
        hdr.FSDGDT = match read_field(stream, 8) {
            Ok(f) => f,
            Err(e) => {
                return Err(e);
            },
        };
        hdr.FSCLTX = match read_field(stream, 43) {
            Ok(f) => f,
            Err(e) => {
                return Err(e);
            },
        };
        hdr.FSCATP = match read_field(stream, 1) {
            Ok(f) => f,
            Err(e) => {
                return Err(e);
            },
        };
        hdr.FSCAUT = match read_field(stream, 40) {
            Ok(f) => f,
            Err(e) => {
                return Err(e);
            },
        };
        hdr.FSCRSN = match read_field(stream, 1) {
            Ok(f) => f,
            Err(e) => {
                return Err(e);
            },
        };
        hdr.FSSRDT = match read_field(stream, 8) {
            Ok(f) => f,
            Err(e) => {
                return Err(e);
            },
        };
        hdr.FSCTLN = match read_field(stream, 15) {
            Ok(f) => f,
            Err(e) => {
                return Err(e);
            },
        };
        hdr.FSCOP = match read_field(stream, 5) {
            Ok(f) => f,
            Err(e) => {
                return Err(e);
            },
        };
        hdr.FSCPYS = match read_field(stream, 5) {
            Ok(f) => f,
            Err(e) => {
                return Err(e);
            },
        };
        hdr.ENCRYP = match read_field(stream, 1) {
            Ok(f) => f,
            Err(e) => {
                return Err(e);
            },
        };
        hdr.FBKGC = match read_field(stream, 3) {
            Ok(f) => f,
            Err(e) => {
                return Err(e);
            },
        };
        hdr.ONAME = match read_field(stream, 24) {
            Ok(f) => f,
            Err(e) => {
                return Err(e);
            },
        };
        hdr.OPHONE = match read_field(stream, 18) {
            Ok(f) => f,
            Err(e) => {
                return Err(e);
            },
        };
        hdr.FL = match read_field(stream, 12) {
            Ok(f) => f,
            Err(e) => {
                return Err(e);
            },
        };
        hdr.HL = match read_field(stream, 6) {
            Ok(f) => f,
            Err(e) => {
                return Err(e);
            },
        };
        hdr.NUMI = match read_field(stream, 3) {
            Ok(f) => f,
            Err(e) => {
                return Err(e);
            },
        };
        hdr.IMHEADERS = match read_table(stream, &hdr.NUMI, 6, 10) {
            Ok(t) => t,
            Err(e) => {
                return Err(e);
            },
        };
        hdr.NUMS = match read_field(stream, 3) {
            Ok(f) => f,
            Err(e) => {
                return Err(e);
            },
        };
        hdr.GRAPHHEADERS = match read_table(stream, &hdr.NUMS, 4, 6) {
            Ok(t) => t,
            Err(e) => {
                return Err(e);
            },
        };
        hdr.NUMX = match read_field(stream, 3) {
            Ok(f) => f,
            Err(e) => {
                return Err(e);
            },
        };
        hdr.NUMT = match read_field(stream, 3) {
            Ok(f) => f,
            Err(e) => {
                return Err(e);
            },
        };
        hdr.TEXTFILES = match read_table(stream, &hdr.NUMT, 4, 5) {
            Ok(t) => t,
            Err(e) => {
                return Err(e);
            },
        };
        hdr.NUMDES = match read_field(stream, 3) {
            Ok(f) => f,
            Err(e) => {
                return Err(e);
            },
        };
        hdr.DEXTHEADERS = match read_table(stream, &hdr.NUMDES, 4, 9) {
            Ok(t) => t,
            Err(e) => {
                return Err(e);
            },
        };
        hdr.NUMRES = match read_field(stream, 3) {
            Ok(f) => f,
            Err(e) => {
                return Err(e);
            },
        };
        hdr.RESHEADERS = match read_table(stream, &hdr.NUMRES, 4, 7) {
            Ok(t) => t,
            Err(e) => {
                return Err(e);
            },
        };
        hdr.UDHDL = match read_field(stream, 5) {
            Ok(f) => f,
            Err(e) => {
                return Err(e);
            },
        };
        hdr.XHDL = match read_field(stream, 5) {
            Ok(f) => f,
            Err(e) => {
                return Err(e);
            },
        };
        Ok(hdr)
    }
}

/// The primary header together with its total byte size, the position of the
/// cursor after the header was read.
#[derive(Clone, Debug, Hash)]
pub struct FileHeader {
    /// Decoded primary header.
    pub meta: NitfHeader,
    /// Cursor position after the header read: with a stream opened at the
    /// first byte of the file this is the header's byte size.
    pub header_size: u64,
}

impl FileHeader {
    /// Decode the primary header at the cursor and record where it ended.
    pub fn read(&mut self, stream: &mut ByteStream) -> (r: Result<(), NitfError>)
        ensures
            final(stream).src == old(stream).src,
            old(stream).pos <= final(stream).pos,
            r is Ok <==> primary_header_ok(old(stream).bytes(), old(stream).pos as int),
            r is Ok ==> {
                &&& final(self).meta.wf_header(old(stream).bytes(), old(stream).pos as int)
                &&& final(stream).pos as int == header_end(
                    old(stream).bytes(),
                    old(stream).pos as int,
                )
                &&& final(self).header_size == final(stream).pos as u64
            },
            r is Err ==> *final(self) == *old(self),
            r matches Err(e) ==> e is InvalidCount || e is TruncatedRead,
    {
        let meta = match NitfHeader::from_reader(stream) {
            Ok(h) => h,
            Err(e) => {
                return Err(e);
            },
        };
        self.meta = meta;
        self.header_size = stream.stream_position();
        Ok(())
    }
}


impl NitfHeader {
    /// The characters the primary header renders as: every field labelled, in
    /// declaration order, manifest tables entry by entry.
    pub open spec fn render_spec(&self) -> Seq<char> {
        "NitfHeader: ["@ + "\nFHDR: "@ + self.FHDR.render_spec()
            + "\nFVER: "@ + self.FVER.render_spec()
            + "\nCLEVEL: "@ + self.CLEVEL.render_spec()
            + "\nSTYPE: "@ + self.STYPE.render_spec()
            + "\nOSTAID: "@ + self.OSTAID.render_spec()
            + "\nFDT: "@ + self.FDT.render_spec()
            + "\nFTITLE: "@ + self.FTITLE.render_spec()
            + "\nFSCLAS: "@ + self.FSCLAS.render_spec()
            + "\nFSCLSY: "@ + self.FSCLSY.render_spec()
            + "\nFSCODE: "@ + self.FSCODE.render_spec()
            + "\nFSCTLH: "@ + self.FSCTLH.render_spec()
            + "\nFSREL: "@ + self.FSREL.render_spec()
            + "\nFSDCTP: "@ + self.FSDCTP.render_spec()
            + "\nFSDCDT: "@ + self.FSDCDT.render_spec()
            + "\nFSDCXM: "@ + self.FSDCXM.render_spec()
            + "\nFSDG: "@ + self.FSDG.render_spec()
            + "\nFSDGDT: "@ + self.FSDGDT.render_spec()
            + "\nFSCLTX: "@ + self.FSCLTX.render_spec()
            + "\nFSCATP: "@ + self.FSCATP.render_spec()
            + "\nFSCAUT: "@ + self.FSCAUT.render_spec()
            + "\nFSCRSN: "@ + self.FSCRSN.render_spec()
            + "\nFSSRDT: "@ + self.FSSRDT.render_spec()
            + "\nFSCTLN: "@ + self.FSCTLN.render_spec()
            + "\nFSCOP: "@ + self.FSCOP.render_spec()
            + "\nFSCPYS: "@ + self.FSCPYS.render_spec()
            + "\nENCRYP: "@ + self.ENCRYP.render_spec()
            + "\nFBKGC: "@ + self.FBKGC.render_spec()
            + "\nONAME: "@ + self.ONAME.render_spec()
            + "\nOPHONE: "@ + self.OPHONE.render_spec()
            + "\nFL: "@ + self.FL.render_spec()
            + "\nHL: "@ + self.HL.render_spec()
            + "\nNUMI: "@ + self.NUMI.render_spec()
            + "\nIMHEADERS: "@ + render_entries_spec(self.IMHEADERS.val@)
            + "\nNUMS: "@ + self.NUMS.render_spec()
            + "\nGRAPHHEADERS: "@ + render_entries_spec(self.GRAPHHEADERS.val@)
            + "\nNUMX: "@ + self.NUMX.render_spec()
            + "\nNUMT: "@ + self.NUMT.render_spec()
            + "\nTEXTFILES: "@ + render_entries_spec(self.TEXTFILES.val@)
            + "\nNUMDES: "@ + self.NUMDES.render_spec()
            + "\nDEXTHEADERS: "@ + render_entries_spec(self.DEXTHEADERS.val@)
            + "\nNUMRES: "@ + self.NUMRES.render_spec()
            + "\nRESHEADERS: "@ + render_entries_spec(self.RESHEADERS.val@)
            + "\nUDHDL: "@ + self.UDHDL.render_spec()
            + "\nXHDL: "@ + self.XHDL.render_spec() + "]"@
    }

    /// Deterministic, order-preserving text rendering of the primary header.
    pub fn render(&self) -> (r: String)
        ensures
            r@ == self.render_spec(),
    {
        let mut out = String::new();
        out.append("NitfHeader: [");
        out.append("\nFHDR: ");
        let f = self.FHDR.render();
        out.append(f.as_str());
        out.append("\nFVER: ");
        let f = self.FVER.render();
        out.append(f.as_str());
        out.append("\nCLEVEL: ");
        let f = self.CLEVEL.render();
        out.append(f.as_str());
        out.append("\nSTYPE: ");
        let f = self.STYPE.render();
        out.append(f.as_str());
        out.append("\nOSTAID: ");
        let f = self.OSTAID.render();
        out.append(f.as_str());
        out.append("\nFDT: ");
        let f = self.FDT.render();
        out.append(f.as_str());
        out.append("\nFTITLE: ");
        let f = self.FTITLE.render();
        out.append(f.as_str());
        out.append("\nFSCLAS: ");
        let f = self.FSCLAS.render();
        out.append(f.as_str());
        out.append("\nFSCLSY: ");
        let f = self.FSCLSY.render();
        out.append(f.as_str());
        out.append("\nFSCODE: ");
        let f = self.FSCODE.render();
        out.append(f.as_str());
        out.append("\nFSCTLH: ");
        let f = self.FSCTLH.render();
        out.append(f.as_str());
        out.append("\nFSREL: ");
        let f = self.FSREL.render();
        out.append(f.as_str());
        out.append("\nFSDCTP: ");
        let f = self.FSDCTP.render();
        out.append(f.as_str());
        out.append("\nFSDCDT: ");
        let f = self.FSDCDT.render();
        out.append(f.as_str());
        out.append("\nFSDCXM: ");
        let f = self.FSDCXM.render();
        out.append(f.as_str());
        out.append("\nFSDG: ");
        let f = self.FSDG.render();
        out.append(f.as_str());
        out.append("\nFSDGDT: ");
        let f = self.FSDGDT.render();
        out.append(f.as_str());
        out.append("\nFSCLTX: ");
        let f = self.FSCLTX.render();
        out.append(f.as_str());
        out.append("\nFSCATP: ");
        let f = self.FSCATP.render();
        out.append(f.as_str());
        out.append("\nFSCAUT: ");
        let f = self.FSCAUT.render();
        out.append(f.as_str());
        out.append("\nFSCRSN: ");
        let f = self.FSCRSN.render();
        out.append(f.as_str());
        out.append("\nFSSRDT: ");
        let f = self.FSSRDT.render();
        out.append(f.as_str());
        out.append("\nFSCTLN: ");
        let f = self.FSCTLN.render();
        out.append(f.as_str());
        out.append("\nFSCOP: ");
        let f = self.FSCOP.render();
        out.append(f.as_str());
        out.append("\nFSCPYS: ");
        let f = self.FSCPYS.render();
        out.append(f.as_str());
        out.append("\nENCRYP: ");
        let f = self.ENCRYP.render();
        out.append(f.as_str());
        out.append("\nFBKGC: ");
        let f = self.FBKGC.render();
        out.append(f.as_str());
        out.append("\nONAME: ");
        let f = self.ONAME.render();
        out.append(f.as_str());
        out.append("\nOPHONE: ");
        let f = self.OPHONE.render();
        out.append(f.as_str());
        out.append("\nFL: ");
        let f = self.FL.render();
        out.append(f.as_str());
        out.append("\nHL: ");
        let f = self.HL.render();
        out.append(f.as_str());
        out.append("\nNUMI: ");
        let f = self.NUMI.render();
        out.append(f.as_str());
        out.append("\nIMHEADERS: ");
        let f = self.IMHEADERS.render();
        out.append(f.as_str());
        out.append("\nNUMS: ");
        let f = self.NUMS.render();
        out.append(f.as_str());
        out.append("\nGRAPHHEADERS: ");
        let f = self.GRAPHHEADERS.render();
        out.append(f.as_str());
        out.append("\nNUMX: ");
        let f = self.NUMX.render();
        out.append(f.as_str());
        out.append("\nNUMT: ");
        let f = self.NUMT.render();
        out.append(f.as_str());
        out.append("\nTEXTFILES: ");
        let f = self.TEXTFILES.render();
        out.append(f.as_str());
        out.append("\nNUMDES: ");
        let f = self.NUMDES.render();
        out.append(f.as_str());
        out.append("\nDEXTHEADERS: ");
        let f = self.DEXTHEADERS.render();
        out.append(f.as_str());
        out.append("\nNUMRES: ");
        let f = self.NUMRES.render();
        out.append(f.as_str());
        out.append("\nRESHEADERS: ");
        let f = self.RESHEADERS.render();
        out.append(f.as_str());
        out.append("\nUDHDL: ");
        let f = self.UDHDL.render();
        out.append(f.as_str());
        out.append("\nXHDL: ");
        let f = self.XHDL.render();
        out.append(f.as_str());
        out.append("]");
        out
    }
}


impl NitfHeader {
    /// The raw bytes of the whole decoded header: every field and manifest
    /// table re-serialized in wire order.
    pub open spec fn reserialize(&self) -> Seq<u8> {
        self.FHDR.bytes@
            + self.FVER.bytes@
            + self.CLEVEL.bytes@
            + self.STYPE.bytes@
            + self.OSTAID.bytes@
            + self.FDT.bytes@
            + self.FTITLE.bytes@
            + self.FSCLAS.bytes@
            + self.FSCLSY.bytes@
            + self.FSCODE.bytes@
            + self.FSCTLH.bytes@
            + self.FSREL.bytes@
            + self.FSDCTP.bytes@
            + self.FSDCDT.bytes@
            + self.FSDCXM.bytes@
            + self.FSDG.bytes@
            + self.FSDGDT.bytes@
            + self.FSCLTX.bytes@
            + self.FSCATP.bytes@
            + self.FSCAUT.bytes@
            + self.FSCRSN.bytes@
            + self.FSSRDT.bytes@
            + self.FSCTLN.bytes@
            + self.FSCOP.bytes@
            + self.FSCPYS.bytes@
            + self.ENCRYP.bytes@
            + self.FBKGC.bytes@
            + self.ONAME.bytes@
            + self.OPHONE.bytes@
            + self.FL.bytes@
            + self.HL.bytes@
            + self.NUMI.bytes@
            + reserialize_entries(self.IMHEADERS.val@)
            + self.NUMS.bytes@
            + reserialize_entries(self.GRAPHHEADERS.val@)
            + self.NUMX.bytes@
            + self.NUMT.bytes@
            + reserialize_entries(self.TEXTFILES.val@)
            + self.NUMDES.bytes@
            + reserialize_entries(self.DEXTHEADERS.val@)
            + self.NUMRES.bytes@
            + reserialize_entries(self.RESHEADERS.val@)
            + self.UDHDL.bytes@
            + self.XHDL.bytes@
    }
}

/// Law: re-serializing a decoded primary header, field after field and table
/// after table in wire order, reproduces the source's header region exactly,
/// with no gap and no overlap.
#[verifier::rlimit(100)]
pub proof fn lemma_header_round_trip(h: NitfHeader, bytes: Seq<u8>, start: int)
    requires
        h.wf_header(bytes, start),
    ensures
        h.reserialize() == bytes.subrange(start, header_end(bytes, start)),
{
    lemma_table_round_trip(h.IMHEADERS.val@, bytes, imh_pos(start), 6, 10);
    lemma_table_round_trip(h.GRAPHHEADERS.val@, bytes, graph_pos(bytes, start), 4, 6);
    lemma_table_round_trip(h.TEXTFILES.val@, bytes, textfiles_pos(bytes, start), 4, 5);
    lemma_table_round_trip(h.DEXTHEADERS.val@, bytes, dext_pos(bytes, start), 4, 9);
    lemma_table_round_trip(h.RESHEADERS.val@, bytes, resh_pos(bytes, start), 4, 7);
    assert(h.FHDR.bytes@ =~= bytes.subrange(start, start + 4));
    assert(h.FHDR.bytes@ + h.FVER.bytes@ =~= bytes.subrange(start, start + 9));
    assert(h.FHDR.bytes@ + h.FVER.bytes@ + h.CLEVEL.bytes@ =~= bytes.subrange(start, start + 11));
    assert(h.FHDR.bytes@ + h.FVER.bytes@ + h.CLEVEL.bytes@ + h.STYPE.bytes@ =~= bytes.subrange(start, start + 15));
    assert(h.FHDR.bytes@ + h.FVER.bytes@ + h.CLEVEL.bytes@ + h.STYPE.bytes@ + h.OSTAID.bytes@ =~= bytes.subrange(start, start + 25));
    assert(h.FHDR.bytes@ + h.FVER.bytes@ + h.CLEVEL.bytes@ + h.STYPE.bytes@ + h.OSTAID.bytes@ + h.FDT.bytes@ =~= bytes.subrange(start, start + 39));
    assert(h.FHDR.bytes@ + h.FVER.bytes@ + h.CLEVEL.bytes@ + h.STYPE.bytes@ + h.OSTAID.bytes@ + h.FDT.bytes@ + h.FTITLE.bytes@ =~= bytes.subrange(start, start + 119));
    assert(h.FHDR.bytes@ + h.FVER.bytes@ + h.CLEVEL.bytes@ + h.STYPE.bytes@ + h.OSTAID.bytes@ + h.FDT.bytes@ + h.FTITLE.bytes@ + h.FSCLAS.bytes@ =~= bytes.subrange(start, start + 120));
    assert(h.FHDR.bytes@ + h.FVER.bytes@ + h.CLEVEL.bytes@ + h.STYPE.bytes@ + h.OSTAID.bytes@ + h.FDT.bytes@ + h.FTITLE.bytes@ + h.FSCLAS.bytes@ + h.FSCLSY.bytes@ =~= bytes.subrange(start, start + 122));
    assert(h.FHDR.bytes@ + h.FVER.bytes@ + h.CLEVEL.bytes@ + h.STYPE.bytes@ + h.OSTAID.bytes@ + h.FDT.bytes@ + h.FTITLE.bytes@ + h.FSCLAS.bytes@ + h.FSCLSY.bytes@ + h.FSCODE.bytes@ =~= bytes.subrange(start, start + 133));
    assert(h.FHDR.bytes@ + h.FVER.bytes@ + h.CLEVEL.bytes@ + h.STYPE.bytes@ + h.OSTAID.bytes@ + h.FDT.bytes@ + h.FTITLE.bytes@ + h.FSCLAS.bytes@ + h.FSCLSY.bytes@ + h.FSCODE.bytes@ + h.FSCTLH.bytes@ =~= bytes.subrange(start, start + 135));
    assert(h.FHDR.bytes@ + h.FVER.bytes@ + h.CLEVEL.bytes@ + h.STYPE.bytes@ + h.OSTAID.bytes@ + h.FDT.bytes@ + h.FTITLE.bytes@ + h.FSCLAS.bytes@ + h.FSCLSY.bytes@ + h.FSCODE.bytes@ + h.FSCTLH.bytes@ + h.FSREL.bytes@ =~= bytes.subrange(start, start + 155));
    assert(h.FHDR.bytes@ + h.FVER.bytes@ + h.CLEVEL.bytes@ + h.STYPE.bytes@ + h.OSTAID.bytes@ + h.FDT.bytes@ + h.FTITLE.bytes@ + h.FSCLAS.bytes@ + h.FSCLSY.bytes@ + h.FSCODE.bytes@ + h.FSCTLH.bytes@ + h.FSREL.bytes@ + h.FSDCTP.bytes@ =~= bytes.subrange(start, start + 157));
    assert(h.FHDR.bytes@ + h.FVER.bytes@ + h.CLEVEL.bytes@ + h.STYPE.bytes@ + h.OSTAID.bytes@ + h.FDT.bytes@ + h.FTITLE.bytes@ + h.FSCLAS.bytes@ + h.FSCLSY.bytes@ + h.FSCODE.bytes@ + h.FSCTLH.bytes@ + h.FSREL.bytes@ + h.FSDCTP.bytes@ + h.FSDCDT.bytes@ =~= bytes.subrange(start, start + 165));
    assert(h.FHDR.bytes@ + h.FVER.bytes@ + h.CLEVEL.bytes@ + h.STYPE.bytes@ + h.OSTAID.bytes@ + h.FDT.bytes@ + h.FTITLE.bytes@ + h.FSCLAS.bytes@ + h.FSCLSY.bytes@ + h.FSCODE.bytes@ + h.FSCTLH.bytes@ + h.FSREL.bytes@ + h.FSDCTP.bytes@ + h.FSDCDT.bytes@ + h.FSDCXM.bytes@ =~= bytes.subrange(start, start + 169));
    assert(h.FHDR.bytes@ + h.FVER.bytes@ + h.CLEVEL.bytes@ + h.STYPE.bytes@ + h.OSTAID.bytes@ + h.FDT.bytes@ + h.FTITLE.bytes@ + h.FSCLAS.bytes@ + h.FSCLSY.bytes@ + h.FSCODE.bytes@ + h.FSCTLH.bytes@ + h.FSREL.bytes@ + h.FSDCTP.bytes@ + h.FSDCDT.bytes@ + h.FSDCXM.bytes@ + h.FSDG.bytes@ =~= bytes.subrange(start, start + 170));
    assert(h.FHDR.bytes@ + h.FVER.bytes@ + h.CLEVEL.bytes@ + h.STYPE.bytes@ + h.OSTAID.bytes@ + h.FDT.bytes@ + h.FTITLE.bytes@ + h.FSCLAS.bytes@ + h.FSCLSY.bytes@ + h.FSCODE.bytes@ + h.FSCTLH.bytes@ + h.FSREL.bytes@ + h.FSDCTP.bytes@ + h.FSDCDT.bytes@ + h.FSDCXM.bytes@ + h.FSDG.bytes@ + h.FSDGDT.bytes@ =~= bytes.subrange(start, start + 178));
    assert(h.FHDR.bytes@ + h.FVER.bytes@ + h.CLEVEL.bytes@ + h.STYPE.bytes@ + h.OSTAID.bytes@ + h.FDT.bytes@ + h.FTITLE.bytes@ + h.FSCLAS.bytes@ + h.FSCLSY.bytes@ + h.FSCODE.bytes@ + h.FSCTLH.bytes@ + h.FSREL.bytes@ + h.FSDCTP.bytes@ + h.FSDCDT.bytes@ + h.FSDCXM.bytes@ + h.FSDG.bytes@ + h.FSDGDT.bytes@ + h.FSCLTX.bytes@ =~= bytes.subrange(start, start + 221));
    assert(h.FHDR.bytes@ + h.FVER.bytes@ + h.CLEVEL.bytes@ + h.STYPE.bytes@ + h.OSTAID.bytes@ + h.FDT.bytes@ + h.FTITLE.bytes@ + h.FSCLAS.bytes@ + h.FSCLSY.bytes@ + h.FSCODE.bytes@ + h.FSCTLH.bytes@ + h.FSREL.bytes@ + h.FSDCTP.bytes@ + h.FSDCDT.bytes@ + h.FSDCXM.bytes@ + h.FSDG.bytes@ + h.FSDGDT.bytes@ + h.FSCLTX.bytes@ + h.FSCATP.bytes@ =~= bytes.subrange(start, start + 222));
    assert(h.FHDR.bytes@ + h.FVER.bytes@ + h.CLEVEL.bytes@ + h.STYPE.bytes@ + h.OSTAID.bytes@ + h.FDT.bytes@ + h.FTITLE.bytes@ + h.FSCLAS.bytes@ + h.FSCLSY.bytes@ + h.FSCODE.bytes@ + h.FSCTLH.bytes@ + h.FSREL.bytes@ + h.FSDCTP.bytes@ + h.FSDCDT.bytes@ + h.FSDCXM.bytes@ + h.FSDG.bytes@ + h.FSDGDT.bytes@ + h.FSCLTX.bytes@ + h.FSCATP.bytes@ + h.FSCAUT.bytes@ =~= bytes.subrange(start, start + 262));
    assert(h.FHDR.bytes@ + h.FVER.bytes@ + h.CLEVEL.bytes@ + h.STYPE.bytes@ + h.OSTAID.bytes@ + h.FDT.bytes@ + h.FTITLE.bytes@ + h.FSCLAS.bytes@ + h.FSCLSY.bytes@ + h.FSCODE.bytes@ + h.FSCTLH.bytes@ + h.FSREL.bytes@ + h.FSDCTP.bytes@ + h.FSDCDT.bytes@ + h.FSDCXM.bytes@ + h.FSDG.bytes@ + h.FSDGDT.bytes@ + h.FSCLTX.bytes@ + h.FSCATP.bytes@ + h.FSCAUT.bytes@ + h.FSCRSN.bytes@ =~= bytes.subrange(start, start + 263));
    assert(h.FHDR.bytes@ + h.FVER.bytes@ + h.CLEVEL.bytes@ + h.STYPE.bytes@ + h.OSTAID.bytes@ + h.FDT.bytes@ + h.FTITLE.bytes@ + h.FSCLAS.bytes@ + h.FSCLSY.bytes@ + h.FSCODE.bytes@ + h.FSCTLH.bytes@ + h.FSREL.bytes@ + h.FSDCTP.bytes@ + h.FSDCDT.bytes@ + h.FSDCXM.bytes@ + h.FSDG.bytes@ + h.FSDGDT.bytes@ + h.FSCLTX.bytes@ + h.FSCATP.bytes@ + h.FSCAUT.bytes@ + h.FSCRSN.bytes@ + h.FSSRDT.bytes@ =~= bytes.subrange(start, start + 271));
    assert(h.FHDR.bytes@ + h.FVER.bytes@ + h.CLEVEL.bytes@ + h.STYPE.bytes@ + h.OSTAID.bytes@ + h.FDT.bytes@ + h.FTITLE.bytes@ + h.FSCLAS.bytes@ + h.FSCLSY.bytes@ + h.FSCODE.bytes@ + h.FSCTLH.bytes@ + h.FSREL.bytes@ + h.FSDCTP.bytes@ + h.FSDCDT.bytes@ + h.FSDCXM.bytes@ + h.FSDG.bytes@ + h.FSDGDT.bytes@ + h.FSCLTX.bytes@ + h.FSCATP.bytes@ + h.FSCAUT.bytes@ + h.FSCRSN.bytes@ + h.FSSRDT.bytes@ + h.FSCTLN.bytes@ =~= bytes.subrange(start, start + 286));
    assert(h.FHDR.bytes@ + h.FVER.bytes@ + h.CLEVEL.bytes@ + h.STYPE.bytes@ + h.OSTAID.bytes@ + h.FDT.bytes@ + h.FTITLE.bytes@ + h.FSCLAS.bytes@ + h.FSCLSY.bytes@ + h.FSCODE.bytes@ + h.FSCTLH.bytes@ + h.FSREL.bytes@ + h.FSDCTP.bytes@ + h.FSDCDT.bytes@ + h.FSDCXM.bytes@ + h.FSDG.bytes@ + h.FSDGDT.bytes@ + h.FSCLTX.bytes@ + h.FSCATP.bytes@ + h.FSCAUT.bytes@ + h.FSCRSN.bytes@ + h.FSSRDT.bytes@ + h.FSCTLN.bytes@ + h.FSCOP.bytes@ =~= bytes.subrange(start, start + 291));
    assert(h.FHDR.bytes@ + h.FVER.bytes@ + h.CLEVEL.bytes@ + h.STYPE.bytes@ + h.OSTAID.bytes@ + h.FDT.bytes@ + h.FTITLE.bytes@ + h.FSCLAS.bytes@ + h.FSCLSY.bytes@ + h.FSCODE.bytes@ + h.FSCTLH.bytes@ + h.FSREL.bytes@ + h.FSDCTP.bytes@ + h.FSDCDT.bytes@ + h.FSDCXM.bytes@ + h.FSDG.bytes@ + h.FSDGDT.bytes@ + h.FSCLTX.bytes@ + h.FSCATP.bytes@ + h.FSCAUT.bytes@ + h.FSCRSN.bytes@ + h.FSSRDT.bytes@ + h.FSCTLN.bytes@ + h.FSCOP.bytes@ + h.FSCPYS.bytes@ =~= bytes.subrange(start, start + 296));
    assert(h.FHDR.bytes@ + h.FVER.bytes@ + h.CLEVEL.bytes@ + h.STYPE.bytes@ + h.OSTAID.bytes@ + h.FDT.bytes@ + h.FTITLE.bytes@ + h.FSCLAS.bytes@ + h.FSCLSY.bytes@ + h.FSCODE.bytes@ + h.FSCTLH.bytes@ + h.FSREL.bytes@ + h.FSDCTP.bytes@ + h.FSDCDT.bytes@ + h.FSDCXM.bytes@ + h.FSDG.bytes@ + h.FSDGDT.bytes@ + h.FSCLTX.bytes@ + h.FSCATP.bytes@ + h.FSCAUT.bytes@ + h.FSCRSN.bytes@ + h.FSSRDT.bytes@ + h.FSCTLN.bytes@ + h.FSCOP.bytes@ + h.FSCPYS.bytes@ + h.ENCRYP.bytes@ =~= bytes.subrange(start, start + 297));
    assert(h.FHDR.bytes@ + h.FVER.bytes@ + h.CLEVEL.bytes@ + h.STYPE.bytes@ + h.OSTAID.bytes@ + h.FDT.bytes@ + h.FTITLE.bytes@ + h.FSCLAS.bytes@ + h.FSCLSY.bytes@ + h.FSCODE.bytes@ + h.FSCTLH.bytes@ + h.FSREL.bytes@ + h.FSDCTP.bytes@ + h.FSDCDT.bytes@ + h.FSDCXM.bytes@ + h.FSDG.bytes@ + h.FSDGDT.bytes@ + h.FSCLTX.bytes@ + h.FSCATP.bytes@ + h.FSCAUT.bytes@ + h.FSCRSN.bytes@ + h.FSSRDT.bytes@ + h.FSCTLN.bytes@ + h.FSCOP.bytes@ + h.FSCPYS.bytes@ + h.ENCRYP.bytes@ + h.FBKGC.bytes@ =~= bytes.subrange(start, start + 300));
    assert(h.FHDR.bytes@ + h.FVER.bytes@ + h.CLEVEL.bytes@ + h.STYPE.bytes@ + h.OSTAID.bytes@ + h.FDT.bytes@ + h.FTITLE.bytes@ + h.FSCLAS.bytes@ + h.FSCLSY.bytes@ + h.FSCODE.bytes@ + h.FSCTLH.bytes@ + h.FSREL.bytes@ + h.FSDCTP.bytes@ + h.FSDCDT.bytes@ + h.FSDCXM.bytes@ + h.FSDG.bytes@ + h.FSDGDT.bytes@ + h.FSCLTX.bytes@ + h.FSCATP.bytes@ + h.FSCAUT.bytes@ + h.FSCRSN.bytes@ + h.FSSRDT.bytes@ + h.FSCTLN.bytes@ + h.FSCOP.bytes@ + h.FSCPYS.bytes@ + h.ENCRYP.bytes@ + h.FBKGC.bytes@ + h.ONAME.bytes@ =~= bytes.subrange(start, start + 324));
    assert(h.FHDR.bytes@ + h.FVER.bytes@ + h.CLEVEL.bytes@ + h.STYPE.bytes@ + h.OSTAID.bytes@ + h.FDT.bytes@ + h.FTITLE.bytes@ + h.FSCLAS.bytes@ + h.FSCLSY.bytes@ + h.FSCODE.bytes@ + h.FSCTLH.bytes@ + h.FSREL.bytes@ + h.FSDCTP.bytes@ + h.FSDCDT.bytes@ + h.FSDCXM.bytes@ + h.FSDG.bytes@ + h.FSDGDT.bytes@ + h.FSCLTX.bytes@ + h.FSCATP.bytes@ + h.FSCAUT.bytes@ + h.FSCRSN.bytes@ + h.FSSRDT.bytes@ + h.FSCTLN.bytes@ + h.FSCOP.bytes@ + h.FSCPYS.bytes@ + h.ENCRYP.bytes@ + h.FBKGC.bytes@ + h.ONAME.bytes@ + h.OPHONE.bytes@ =~= bytes.subrange(start, start + 342));
    assert(h.FHDR.bytes@ + h.FVER.bytes@ + h.CLEVEL.bytes@ + h.STYPE.bytes@ + h.OSTAID.bytes@ + h.FDT.bytes@ + h.FTITLE.bytes@ + h.FSCLAS.bytes@ + h.FSCLSY.bytes@ + h.FSCODE.bytes@ + h.FSCTLH.bytes@ + h.FSREL.bytes@ + h.FSDCTP.bytes@ + h.FSDCDT.bytes@ + h.FSDCXM.bytes@ + h.FSDG.bytes@ + h.FSDGDT.bytes@ + h.FSCLTX.bytes@ + h.FSCATP.bytes@ + h.FSCAUT.bytes@ + h.FSCRSN.bytes@ + h.FSSRDT.bytes@ + h.FSCTLN.bytes@ + h.FSCOP.bytes@ + h.FSCPYS.bytes@ + h.ENCRYP.bytes@ + h.FBKGC.bytes@ + h.ONAME.bytes@ + h.OPHONE.bytes@ + h.FL.bytes@ =~= bytes.subrange(start, start + 354));
    assert(h.FHDR.bytes@ + h.FVER.bytes@ + h.CLEVEL.bytes@ + h.STYPE.bytes@ + h.OSTAID.bytes@ + h.FDT.bytes@ + h.FTITLE.bytes@ + h.FSCLAS.bytes@ + h.FSCLSY.bytes@ + h.FSCODE.bytes@ + h.FSCTLH.bytes@ + h.FSREL.bytes@ + h.FSDCTP.bytes@ + h.FSDCDT.bytes@ + h.FSDCXM.bytes@ + h.FSDG.bytes@ + h.FSDGDT.bytes@ + h.FSCLTX.bytes@ + h.FSCATP.bytes@ + h.FSCAUT.bytes@ + h.FSCRSN.bytes@ + h.FSSRDT.bytes@ + h.FSCTLN.bytes@ + h.FSCOP.bytes@ + h.FSCPYS.bytes@ + h.ENCRYP.bytes@ + h.FBKGC.bytes@ + h.ONAME.bytes@ + h.OPHONE.bytes@ + h.FL.bytes@ + h.HL.bytes@ =~= bytes.subrange(start, start + 360));
    assert(h.FHDR.bytes@ + h.FVER.bytes@ + h.CLEVEL.bytes@ + h.STYPE.bytes@ + h.OSTAID.bytes@ + h.FDT.bytes@ + h.FTITLE.bytes@ + h.FSCLAS.bytes@ + h.FSCLSY.bytes@ + h.FSCODE.bytes@ + h.FSCTLH.bytes@ + h.FSREL.bytes@ + h.FSDCTP.bytes@ + h.FSDCDT.bytes@ + h.FSDCXM.bytes@ + h.FSDG.bytes@ + h.FSDGDT.bytes@ + h.FSCLTX.bytes@ + h.FSCATP.bytes@ + h.FSCAUT.bytes@ + h.FSCRSN.bytes@ + h.FSSRDT.bytes@ + h.FSCTLN.bytes@ + h.FSCOP.bytes@ + h.FSCPYS.bytes@ + h.ENCRYP.bytes@ + h.FBKGC.bytes@ + h.ONAME.bytes@ + h.OPHONE.bytes@ + h.FL.bytes@ + h.HL.bytes@ + h.NUMI.bytes@ =~= bytes.subrange(start, imh_pos(start)));
    assert(h.FHDR.bytes@ + h.FVER.bytes@ + h.CLEVEL.bytes@ + h.STYPE.bytes@ + h.OSTAID.bytes@ + h.FDT.bytes@ + h.FTITLE.bytes@ + h.FSCLAS.bytes@ + h.FSCLSY.bytes@ + h.FSCODE.bytes@ + h.FSCTLH.bytes@ + h.FSREL.bytes@ + h.FSDCTP.bytes@ + h.FSDCDT.bytes@ + h.FSDCXM.bytes@ + h.FSDG.bytes@ + h.FSDGDT.bytes@ + h.FSCLTX.bytes@ + h.FSCATP.bytes@ + h.FSCAUT.bytes@ + h.FSCRSN.bytes@ + h.FSSRDT.bytes@ + h.FSCTLN.bytes@ + h.FSCOP.bytes@ + h.FSCPYS.bytes@ + h.ENCRYP.bytes@ + h.FBKGC.bytes@ + h.ONAME.bytes@ + h.OPHONE.bytes@ + h.FL.bytes@ + h.HL.bytes@ + h.NUMI.bytes@ + reserialize_entries(h.IMHEADERS.val@) =~= bytes.subrange(start, nums_pos(bytes, start)));
    assert(h.FHDR.bytes@ + h.FVER.bytes@ + h.CLEVEL.bytes@ + h.STYPE.bytes@ + h.OSTAID.bytes@ + h.FDT.bytes@ + h.FTITLE.bytes@ + h.FSCLAS.bytes@ + h.FSCLSY.bytes@ + h.FSCODE.bytes@ + h.FSCTLH.bytes@ + h.FSREL.bytes@ + h.FSDCTP.bytes@ + h.FSDCDT.bytes@ + h.FSDCXM.bytes@ + h.FSDG.bytes@ + h.FSDGDT.bytes@ + h.FSCLTX.bytes@ + h.FSCATP.bytes@ + h.FSCAUT.bytes@ + h.FSCRSN.bytes@ + h.FSSRDT.bytes@ + h.FSCTLN.bytes@ + h.FSCOP.bytes@ + h.FSCPYS.bytes@ + h.ENCRYP.bytes@ + h.FBKGC.bytes@ + h.ONAME.bytes@ + h.OPHONE.bytes@ + h.FL.bytes@ + h.HL.bytes@ + h.NUMI.bytes@ + reserialize_entries(h.IMHEADERS.val@) + h.NUMS.bytes@ =~= bytes.subrange(start, nums_pos(bytes, start) + 3));
    assert(h.FHDR.bytes@ + h.FVER.bytes@ + h.CLEVEL.bytes@ + h.STYPE.bytes@ + h.OSTAID.bytes@ + h.FDT.bytes@ + h.FTITLE.bytes@ + h.FSCLAS.bytes@ + h.FSCLSY.bytes@ + h.FSCODE.bytes@ + h.FSCTLH.bytes@ + h.FSREL.bytes@ + h.FSDCTP.bytes@ + h.FSDCDT.bytes@ + h.FSDCXM.bytes@ + h.FSDG.bytes@ + h.FSDGDT.bytes@ + h.FSCLTX.bytes@ + h.FSCATP.bytes@ + h.FSCAUT.bytes@ + h.FSCRSN.bytes@ + h.FSSRDT.bytes@ + h.FSCTLN.bytes@ + h.FSCOP.bytes@ + h.FSCPYS.bytes@ + h.ENCRYP.bytes@ + h.FBKGC.bytes@ + h.ONAME.bytes@ + h.OPHONE.bytes@ + h.FL.bytes@ + h.HL.bytes@ + h.NUMI.bytes@ + reserialize_entries(h.IMHEADERS.val@) + h.NUMS.bytes@ + reserialize_entries(h.GRAPHHEADERS.val@) =~= bytes.subrange(start, numx_pos(bytes, start)));
    assert(h.FHDR.bytes@ + h.FVER.bytes@ + h.CLEVEL.bytes@ + h.STYPE.bytes@ + h.OSTAID.bytes@ + h.FDT.bytes@ + h.FTITLE.bytes@ + h.FSCLAS.bytes@ + h.FSCLSY.bytes@ + h.FSCODE.bytes@ + h.FSCTLH.bytes@ + h.FSREL.bytes@ + h.FSDCTP.bytes@ + h.FSDCDT.bytes@ + h.FSDCXM.bytes@ + h.FSDG.bytes@ + h.FSDGDT.bytes@ + h.FSCLTX.bytes@ + h.FSCATP.bytes@ + h.FSCAUT.bytes@ + h.FSCRSN.bytes@ + h.FSSRDT.bytes@ + h.FSCTLN.bytes@ + h.FSCOP.bytes@ + h.FSCPYS.bytes@ + h.ENCRYP.bytes@ + h.FBKGC.bytes@ + h.ONAME.bytes@ + h.OPHONE.bytes@ + h.FL.bytes@ + h.HL.bytes@ + h.NUMI.bytes@ + reserialize_entries(h.IMHEADERS.val@) + h.NUMS.bytes@ + reserialize_entries(h.GRAPHHEADERS.val@) + h.NUMX.bytes@ =~= bytes.subrange(start, numt_pos(bytes, start)));
    assert(h.FHDR.bytes@ + h.FVER.bytes@ + h.CLEVEL.bytes@ + h.STYPE.bytes@ + h.OSTAID.bytes@ + h.FDT.bytes@ + h.FTITLE.bytes@ + h.FSCLAS.bytes@ + h.FSCLSY.bytes@ + h.FSCODE.bytes@ + h.FSCTLH.bytes@ + h.FSREL.bytes@ + h.FSDCTP.bytes@ + h.FSDCDT.bytes@ + h.FSDCXM.bytes@ + h.FSDG.bytes@ + h.FSDGDT.bytes@ + h.FSCLTX.bytes@ + h.FSCATP.bytes@ + h.FSCAUT.bytes@ + h.FSCRSN.bytes@ + h.FSSRDT.bytes@ + h.FSCTLN.bytes@ + h.FSCOP.bytes@ + h.FSCPYS.bytes@ + h.ENCRYP.bytes@ + h.FBKGC.bytes@ + h.ONAME.bytes@ + h.OPHONE.bytes@ + h.FL.bytes@ + h.HL.bytes@ + h.NUMI.bytes@ + reserialize_entries(h.IMHEADERS.val@) + h.NUMS.bytes@ + reserialize_entries(h.GRAPHHEADERS.val@) + h.NUMX.bytes@ + h.NUMT.bytes@ =~= bytes.subrange(start, textfiles_pos(bytes, start)));
    assert(h.FHDR.bytes@ + h.FVER.bytes@ + h.CLEVEL.bytes@ + h.STYPE.bytes@ + h.OSTAID.bytes@ + h.FDT.bytes@ + h.FTITLE.bytes@ + h.FSCLAS.bytes@ + h.FSCLSY.bytes@ + h.FSCODE.bytes@ + h.FSCTLH.bytes@ + h.FSREL.bytes@ + h.FSDCTP.bytes@ + h.FSDCDT.bytes@ + h.FSDCXM.bytes@ + h.FSDG.bytes@ + h.FSDGDT.bytes@ + h.FSCLTX.bytes@ + h.FSCATP.bytes@ + h.FSCAUT.bytes@ + h.FSCRSN.bytes@ + h.FSSRDT.bytes@ + h.FSCTLN.bytes@ + h.FSCOP.bytes@ + h.FSCPYS.bytes@ + h.ENCRYP.bytes@ + h.FBKGC.bytes@ + h.ONAME.bytes@ + h.OPHONE.bytes@ + h.FL.bytes@ + h.HL.bytes@ + h.NUMI.bytes@ + reserialize_entries(h.IMHEADERS.val@) + h.NUMS.bytes@ + reserialize_entries(h.GRAPHHEADERS.val@) + h.NUMX.bytes@ + h.NUMT.bytes@ + reserialize_entries(h.TEXTFILES.val@) =~= bytes.subrange(start, numdes_pos(bytes, start)));
    assert(h.FHDR.bytes@ + h.FVER.bytes@ + h.CLEVEL.bytes@ + h.STYPE.bytes@ + h.OSTAID.bytes@ + h.FDT.bytes@ + h.FTITLE.bytes@ + h.FSCLAS.bytes@ + h.FSCLSY.bytes@ + h.FSCODE.bytes@ + h.FSCTLH.bytes@ + h.FSREL.bytes@ + h.FSDCTP.bytes@ + h.FSDCDT.bytes@ + h.FSDCXM.bytes@ + h.FSDG.bytes@ + h.FSDGDT.bytes@ + h.FSCLTX.bytes@ + h.FSCATP.bytes@ + h.FSCAUT.bytes@ + h.FSCRSN.bytes@ + h.FSSRDT.bytes@ + h.FSCTLN.bytes@ + h.FSCOP.bytes@ + h.FSCPYS.bytes@ + h.ENCRYP.bytes@ + h.FBKGC.bytes@ + h.ONAME.bytes@ + h.OPHONE.bytes@ + h.FL.bytes@ + h.HL.bytes@ + h.NUMI.bytes@ + reserialize_entries(h.IMHEADERS.val@) + h.NUMS.bytes@ + reserialize_entries(h.GRAPHHEADERS.val@) + h.NUMX.bytes@ + h.NUMT.bytes@ + reserialize_entries(h.TEXTFILES.val@) + h.NUMDES.bytes@ =~= bytes.subrange(start, dext_pos(bytes, start)));
    assert(h.FHDR.bytes@ + h.FVER.bytes@ + h.CLEVEL.bytes@ + h.STYPE.bytes@ + h.OSTAID.bytes@ + h.FDT.bytes@ + h.FTITLE.bytes@ + h.FSCLAS.bytes@ + h.FSCLSY.bytes@ + h.FSCODE.bytes@ + h.FSCTLH.bytes@ + h.FSREL.bytes@ + h.FSDCTP.bytes@ + h.FSDCDT.bytes@ + h.FSDCXM.bytes@ + h.FSDG.bytes@ + h.FSDGDT.bytes@ + h.FSCLTX.bytes@ + h.FSCATP.bytes@ + h.FSCAUT.bytes@ + h.FSCRSN.bytes@ + h.FSSRDT.bytes@ + h.FSCTLN.bytes@ + h.FSCOP.bytes@ + h.FSCPYS.bytes@ + h.ENCRYP.bytes@ + h.FBKGC.bytes@ + h.ONAME.bytes@ + h.OPHONE.bytes@ + h.FL.bytes@ + h.HL.bytes@ + h.NUMI.bytes@ + reserialize_entries(h.IMHEADERS.val@) + h.NUMS.bytes@ + reserialize_entries(h.GRAPHHEADERS.val@) + h.NUMX.bytes@ + h.NUMT.bytes@ + reserialize_entries(h.TEXTFILES.val@) + h.NUMDES.bytes@ + reserialize_entries(h.DEXTHEADERS.val@) =~= bytes.subrange(start, numres_pos(bytes, start)));
    assert(h.FHDR.bytes@ + h.FVER.bytes@ + h.CLEVEL.bytes@ + h.STYPE.bytes@ + h.OSTAID.bytes@ + h.FDT.bytes@ + h.FTITLE.bytes@ + h.FSCLAS.bytes@ + h.FSCLSY.bytes@ + h.FSCODE.bytes@ + h.FSCTLH.bytes@ + h.FSREL.bytes@ + h.FSDCTP.bytes@ + h.FSDCDT.bytes@ + h.FSDCXM.bytes@ + h.FSDG.bytes@ + h.FSDGDT.bytes@ + h.FSCLTX.bytes@ + h.FSCATP.bytes@ + h.FSCAUT.bytes@ + h.FSCRSN.bytes@ + h.FSSRDT.bytes@ + h.FSCTLN.bytes@ + h.FSCOP.bytes@ + h.FSCPYS.bytes@ + h.ENCRYP.bytes@ + h.FBKGC.bytes@ + h.ONAME.bytes@ + h.OPHONE.bytes@ + h.FL.bytes@ + h.HL.bytes@ + h.NUMI.bytes@ + reserialize_entries(h.IMHEADERS.val@) + h.NUMS.bytes@ + reserialize_entries(h.GRAPHHEADERS.val@) + h.NUMX.bytes@ + h.NUMT.bytes@ + reserialize_entries(h.TEXTFILES.val@) + h.NUMDES.bytes@ + reserialize_entries(h.DEXTHEADERS.val@) + h.NUMRES.bytes@ =~= bytes.subrange(start, resh_pos(bytes, start)));
    assert(h.FHDR.bytes@ + h.FVER.bytes@ + h.CLEVEL.bytes@ + h.STYPE.bytes@ + h.OSTAID.bytes@ + h.FDT.bytes@ + h.FTITLE.bytes@ + h.FSCLAS.bytes@ + h.FSCLSY.bytes@ + h.FSCODE.bytes@ + h.FSCTLH.bytes@ + h.FSREL.bytes@ + h.FSDCTP.bytes@ + h.FSDCDT.bytes@ + h.FSDCXM.bytes@ + h.FSDG.bytes@ + h.FSDGDT.bytes@ + h.FSCLTX.bytes@ + h.FSCATP.bytes@ + h.FSCAUT.bytes@ + h.FSCRSN.bytes@ + h.FSSRDT.bytes@ + h.FSCTLN.bytes@ + h.FSCOP.bytes@ + h.FSCPYS.bytes@ + h.ENCRYP.bytes@ + h.FBKGC.bytes@ + h.ONAME.bytes@ + h.OPHONE.bytes@ + h.FL.bytes@ + h.HL.bytes@ + h.NUMI.bytes@ + reserialize_entries(h.IMHEADERS.val@) + h.NUMS.bytes@ + reserialize_entries(h.GRAPHHEADERS.val@) + h.NUMX.bytes@ + h.NUMT.bytes@ + reserialize_entries(h.TEXTFILES.val@) + h.NUMDES.bytes@ + reserialize_entries(h.DEXTHEADERS.val@) + h.NUMRES.bytes@ + reserialize_entries(h.RESHEADERS.val@) =~= bytes.subrange(start, udhdl_pos(bytes, start)));
    assert(h.FHDR.bytes@ + h.FVER.bytes@ + h.CLEVEL.bytes@ + h.STYPE.bytes@ + h.OSTAID.bytes@ + h.FDT.bytes@ + h.FTITLE.bytes@ + h.FSCLAS.bytes@ + h.FSCLSY.bytes@ + h.FSCODE.bytes@ + h.FSCTLH.bytes@ + h.FSREL.bytes@ + h.FSDCTP.bytes@ + h.FSDCDT.bytes@ + h.FSDCXM.bytes@ + h.FSDG.bytes@ + h.FSDGDT.bytes@ + h.FSCLTX.bytes@ + h.FSCATP.bytes@ + h.FSCAUT.bytes@ + h.FSCRSN.bytes@ + h.FSSRDT.bytes@ + h.FSCTLN.bytes@ + h.FSCOP.bytes@ + h.FSCPYS.bytes@ + h.ENCRYP.bytes@ + h.FBKGC.bytes@ + h.ONAME.bytes@ + h.OPHONE.bytes@ + h.FL.bytes@ + h.HL.bytes@ + h.NUMI.bytes@ + reserialize_entries(h.IMHEADERS.val@) + h.NUMS.bytes@ + reserialize_entries(h.GRAPHHEADERS.val@) + h.NUMX.bytes@ + h.NUMT.bytes@ + reserialize_entries(h.TEXTFILES.val@) + h.NUMDES.bytes@ + reserialize_entries(h.DEXTHEADERS.val@) + h.NUMRES.bytes@ + reserialize_entries(h.RESHEADERS.val@) + h.UDHDL.bytes@ =~= bytes.subrange(start, udhdl_pos(bytes, start) + 5));
    assert(h.FHDR.bytes@ + h.FVER.bytes@ + h.CLEVEL.bytes@ + h.STYPE.bytes@ + h.OSTAID.bytes@ + h.FDT.bytes@ + h.FTITLE.bytes@ + h.FSCLAS.bytes@ + h.FSCLSY.bytes@ + h.FSCODE.bytes@ + h.FSCTLH.bytes@ + h.FSREL.bytes@ + h.FSDCTP.bytes@ + h.FSDCDT.bytes@ + h.FSDCXM.bytes@ + h.FSDG.bytes@ + h.FSDGDT.bytes@ + h.FSCLTX.bytes@ + h.FSCATP.bytes@ + h.FSCAUT.bytes@ + h.FSCRSN.bytes@ + h.FSSRDT.bytes@ + h.FSCTLN.bytes@ + h.FSCOP.bytes@ + h.FSCPYS.bytes@ + h.ENCRYP.bytes@ + h.FBKGC.bytes@ + h.ONAME.bytes@ + h.OPHONE.bytes@ + h.FL.bytes@ + h.HL.bytes@ + h.NUMI.bytes@ + reserialize_entries(h.IMHEADERS.val@) + h.NUMS.bytes@ + reserialize_entries(h.GRAPHHEADERS.val@) + h.NUMX.bytes@ + h.NUMT.bytes@ + reserialize_entries(h.TEXTFILES.val@) + h.NUMDES.bytes@ + reserialize_entries(h.DEXTHEADERS.val@) + h.NUMRES.bytes@ + reserialize_entries(h.RESHEADERS.val@) + h.UDHDL.bytes@ + h.XHDL.bytes@ =~= bytes.subrange(start, header_end(bytes, start)));
}

} // verus!
