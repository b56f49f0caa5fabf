//! Fixed-width field and field-array primitives. A field records the raw
//! bytes it was read from, the byte offset of the read, and a tagged text
//! decoding; an array's element count is taken from the decoded value of an
//! already-read count field, never known statically.

use crate::error::NitfError;
use crate::stream::ByteStream;
use vstd::prelude::*;
use vstd::string::StringExecFns;

verus! {

/// The ASCII digits, the only characters a count field may hold.
pub open spec fn is_digit(b: u8) -> bool {
    0x30 <= b && b <= 0x39
}

pub open spec fn all_digits(s: Seq<u8>) -> bool {
    forall|i: int| 0 <= i < s.len() ==> is_digit(#[trigger] s[i])
}

/// The non-negative integer a run of ASCII digits denotes, most significant
/// digit first. Meaningful when `all_digits(s)` holds.
pub open spec fn dec_value(s: Seq<u8>) -> int
    decreases s.len(),
{
    if s.len() == 0 {
        0
    } else {
        dec_value(s.drop_last()) * 10 + (s.last() - 0x30)
    }
}

/// A count field's bytes parse as a non-negative integer that a machine word
/// can hold.
pub open spec fn count_parses(s: Seq<u8>) -> bool {
    &&& s.len() > 0
    &&& all_digits(s)
    &&& dec_value(s) <= u64::MAX
}

pub proof fn lemma_dec_value_nonneg(s: Seq<u8>)
    requires
        all_digits(s),
    ensures
        dec_value(s) >= 0,
    decreases s.len(),
{
    if s.len() > 0 {
        assert(all_digits(s.drop_last()));
        lemma_dec_value_nonneg(s.drop_last());
    }
}

/// Extending a digit run to the right never decreases its value.
pub proof fn lemma_dec_value_prefix(s: Seq<u8>, i: int)
    requires
        all_digits(s),
        0 <= i <= s.len(),
    ensures
        dec_value(s.take(i)) <= dec_value(s),
    decreases s.len() - i,
{
    if i == s.len() {
        assert(s.take(i) =~= s);
    } else {
        assert(s.take(i + 1).drop_last() =~= s.take(i));
        assert(all_digits(s.take(i)));
        lemma_dec_value_nonneg(s.take(i));
        assert(dec_value(s.take(i + 1)) == dec_value(s.take(i)) * 10 + (s[i] - 0x30));
        lemma_dec_value_prefix(s, i + 1);
    }
}

/// Parse a count field's bytes as a non-negative integer. Fails with
/// [`NitfError::InvalidCount`], naming the field's offset, when the bytes are
/// empty, hold a non-digit, or denote a value no machine word holds.
pub fn parse_count(bytes: &Vec<u8>, offset: u64) -> (r: Result<u64, NitfError>)
    ensures
        r is Ok <==> count_parses(bytes@),
        r matches Ok(v) ==> v as int == dec_value(bytes@),
        r matches Err(e) ==> e == (NitfError::InvalidCount { offset }),
{
    if bytes.len() == 0 {
        return Err(NitfError::InvalidCount { offset });
    }
    let mut acc: u64 = 0;
    let mut i: usize = 0;
    while i < bytes.len()
        invariant
            0 <= i <= bytes@.len(),
            all_digits(bytes@.take(i as int)),
            acc as int == dec_value(bytes@.take(i as int)),
        decreases bytes@.len() - i,
    {
        let b = bytes[i];
        proof {
            assert(bytes@.take(i + 1).drop_last() =~= bytes@.take(i as int));
        }
        if b < 0x30 || b > 0x39 {
            assert(!all_digits(bytes@)) by {
                assert(bytes@[i as int] == b);
            }
            return Err(NitfError::InvalidCount { offset });
        }
        let d = (b - 0x30) as u64;
        if acc > (u64::MAX - d) / 10 {
            proof {
                assert(acc * 10 + d > u64::MAX) by (nonlinear_arith)
                    requires
                        acc > (u64::MAX - d) / 10,
                        0 <= d <= 9,
                        acc >= 0,
                ;
                if all_digits(bytes@) {
                    lemma_dec_value_prefix(bytes@, i + 1);
                }
            }
            return Err(NitfError::InvalidCount { offset });
        }
        proof {
            assert(acc * 10 + d <= u64::MAX) by (nonlinear_arith)
                requires
                    acc <= (u64::MAX - d) / 10,
                    0 <= d <= 9,
                    acc >= 0,
            ;
        }
        acc = acc * 10 + d;
        i = i + 1;
    }
    proof {
        assert(bytes@.take(i as int) =~= bytes@);
    }
    Ok(acc)
}

/// What an outside UTF-8 decoder yields on a byte run: the decoded characters
/// when the bytes are valid UTF-8, nothing otherwise.
pub uninterp spec fn utf8_decode(bytes: Seq<u8>) -> Option<Seq<char>>;

/// Relies on `String::from_utf8`: `Ok` exactly when the bytes are valid
/// UTF-8, and then the returned string holds their decoding.
#[verifier::external_body]
fn utf8_to_text(b: &Vec<u8>) -> (r: Option<String>)
    ensures
        r is Some <==> utf8_decode(b@) is Some,
        r matches Some(s) ==> Some(s@) == utf8_decode(b@),
{
    match String::from_utf8(b.clone()) {
        Ok(s) => Some(s),
        Err(_) => None,
    }
}

/// The text decoding of a field. A field whose bytes are not valid text keeps
/// its raw bytes and carries this tag instead of a substituted placeholder.
#[derive(Clone, Debug, Hash)]
pub enum FieldText {
    Valid(String),
    Undecodable,
}

impl FieldText {
    /// The tag agrees with the UTF-8 decoding of the given bytes.
    pub open spec fn tracks(&self, bytes: Seq<u8>) -> bool {
        match self {
            FieldText::Valid(s) => utf8_decode(bytes) == Some(s@),
            FieldText::Undecodable => utf8_decode(bytes) is None,
        }
    }
}

/// A fixed-width field: exactly `length` bytes read at file offset `offset`,
/// kept raw, with a tagged text decoding beside them. Created empty and
/// populated by a single `read` call.
#[derive(Clone, Debug, Hash)]
pub struct NitfField {
    /// Raw bytes of the field, exactly as they stand in the file.
    pub bytes: Vec<u8>,
    /// Byte offset in the file of the first byte of the field.
    pub offset: u64,
    /// Tagged text decoding of the field.
    pub text: FieldText,
    /// Declared width of the field in bytes.
    pub length: usize,
}

impl NitfField {
    /// File offset of the first byte past the field.
    pub open spec fn end(&self) -> int {
        self.offset + self.length as int
    }

    /// The field's recorded bytes are exactly the source bytes at its
    /// recorded offset: re-serializing the field reproduces the source.
    pub open spec fn faithful(&self, bytes: Seq<u8>) -> bool {
        &&& self.bytes@.len() == self.length
        &&& self.offset + self.length as int <= bytes.len()
        &&& self.bytes@ == bytes.subrange(self.offset as int, self.end())
    }

    /// The stored width and text agree with the stored bytes.
    pub open spec fn wf(&self) -> bool {
        &&& self.bytes@.len() == self.length
        &&& self.text.tracks(self.bytes@)
    }

    /// Read exactly `n_bytes` at the cursor, recording the pre-read position
    /// as the field's offset and attempting a text decoding; invalid text is
    /// tagged, the raw bytes are kept either way. Fails with
    /// [`NitfError::TruncatedRead`] when fewer than `n_bytes` remain, leaving
    /// field and stream unchanged.
    pub fn read(&mut self, stream: &mut ByteStream, n_bytes: usize) -> (r: Result<(), NitfError>)
        ensures
            final(stream).src == old(stream).src,
            r is Ok <==> old(stream).can_read(n_bytes as int),
            r is Ok ==> {
                &&& final(stream).pos == old(stream).pos + n_bytes
                &&& final(self).offset as int == old(stream).pos as int
                &&& final(self).length == n_bytes
                &&& final(self).faithful(old(stream).bytes())
                &&& final(self).wf()
            },
            r is Err ==> final(stream).pos == old(stream).pos && *final(self) == *old(self),
            r matches Err(e) ==> e == (NitfError::TruncatedRead {
                offset: old(stream).pos as u64,
                requested: n_bytes as u64,
                available: old(stream).bytes().len() as u64,
            }),
    {
        let offset = stream.stream_position();
        let data = match stream.read_bytes(n_bytes) {
            Ok(v) => v,
            Err(e) => {
                return Err(e);
            },
        };
        self.text = match utf8_to_text(&data) {
            Some(s) => FieldText::Valid(s),
            None => FieldText::Undecodable,
        };
        self.bytes = data;
        self.offset = offset;
        self.length = n_bytes;
        Ok(())
    }
}

impl Default for NitfField {
    /// An empty, not-yet-populated field.
    fn default() -> (r: Self)
        ensures
            r.bytes@.len() == 0,
            r.offset == 0,
            r.length == 0,
    {
        NitfField { bytes: Vec::new(), offset: 0, text: FieldText::Undecodable, length: 0 }
    }
}

/// Every field of the run is faithful, `width` bytes wide, and they sit back
/// to back from `start` in file order.
pub open spec fn fields_chained(fields: Seq<NitfField>, start: int, width: int, bytes: Seq<u8>) -> bool {
    forall|i: int| 0 <= i < fields.len() ==> {
        &&& (#[trigger] fields[i]).faithful(bytes)
        &&& fields[i].wf()
        &&& fields[i].length as int == width
        &&& fields[i].offset as int == start + i * width
    }
}

/// A run of `count` reads of `width` bytes each, started at `pos`, stays
/// inside a source of `len` bytes. An empty run always fits.
pub open spec fn run_fits(pos: int, count: int, width: int, len: int) -> bool {
    count == 0 || pos + count * width <= len
}

/// A run of equally wide fields whose count is taken from the decoded value
/// of an already-read count field.
#[derive(Clone, Debug, Hash)]
pub struct NitfFieldVec {
    /// The fields, in file order.
    pub val: Vec<NitfField>,
}

impl NitfFieldVec {
    /// Parse `n_field`'s bytes as a count `n`, then read `n` fields of
    /// `n_bytes` each, in file order. Fails with [`NitfError::InvalidCount`],
    /// naming `n_field`'s offset, when the count does not parse, and with
    /// [`NitfError::TruncatedRead`] when the source ends inside the run; on
    /// failure the array is left empty.
    pub fn read_vec(
        &mut self,
        stream: &mut ByteStream,
        n_field: &NitfField,
        n_bytes: usize,
    ) -> (r: Result<(), NitfError>)
        requires
            old(self).val@.len() == 0,
        ensures
            final(stream).src == old(stream).src,
            old(stream).pos <= final(stream).pos,
            r is Ok <==> count_parses(n_field.bytes@) && run_fits(
                old(stream).pos as int,
                dec_value(n_field.bytes@),
                n_bytes as int,
                old(stream).bytes().len() as int,
            ),
            r is Ok ==> {
                &&& final(self).val@.len() == dec_value(n_field.bytes@)
                &&& fields_chained(
                    final(self).val@,
                    old(stream).pos as int,
                    n_bytes as int,
                    old(stream).bytes(),
                )
                &&& final(stream).pos as int == old(stream).pos
                    + dec_value(n_field.bytes@) * n_bytes
            },
            r is Err ==> *final(self) == *old(self),
            !count_parses(n_field.bytes@) ==> r == Err::<(), NitfError>(NitfError::InvalidCount {
                offset: n_field.offset,
            }) && final(stream).pos == old(stream).pos,
            r matches Err(e) ==> e is InvalidCount || e is TruncatedRead,
    {
        let count = match parse_count(&n_field.bytes, n_field.offset) {
            Ok(c) => c,
            Err(e) => {
                return Err(e);
            },
        };
        let ghost start = stream.pos as int;
        let ghost bytes = stream.bytes();
        let mut out: Vec<NitfField> = Vec::new();
        let mut i: u64 = 0;
        while i < count
            invariant
                0 <= i <= count,
                count as int == dec_value(n_field.bytes@),
                count_parses(n_field.bytes@),
                stream.src == old(stream).src,
                bytes == stream.src.bytes(),
                stream.pos as int == start + i * n_bytes,
                start == old(stream).pos as int,
                start <= stream.pos as int,
                i == 0 || stream.pos as int <= bytes.len() as int,
                out@.len() == i,
                fields_chained(out@, start, n_bytes as int, bytes),
            decreases count - i,
        {
            let mut elem = NitfField::default();
            match elem.read(stream, n_bytes) {
                Ok(()) => {},
                Err(e) => {
                    proof {
                        assert(i * n_bytes + n_bytes <= count * n_bytes) by (nonlinear_arith)
                            requires
                                0 <= i,
                                i + 1 <= count,
                                n_bytes >= 0,
                        ;
                    }
                    return Err(e);
                },
            }
            out.push(elem);
            i = i + 1;
            proof {
                assert(stream.pos as int == start + i * n_bytes) by (nonlinear_arith)
                    requires
                        stream.pos as int == start + (i - 1) * n_bytes + n_bytes,
                ;
            }
        }
        self.val = out;
        Ok(())
    }
}

/// One manifest entry: the byte size of a later segment's subheader paired
/// with the byte size of its payload, both held as decimal text fields. The
/// entry is consulted, never recomputed: the decoder trusts it to say how many
/// bytes the segment occupies.
#[derive(Clone, Debug, Hash)]
pub struct NitfSubHeader {
    /// Byte size of the segment's subheader, as a decimal text field.
    pub subheader_size: NitfField,
    /// Byte size of the segment's payload, as a decimal text field.
    pub item_size: NitfField,
}

impl NitfSubHeader {
    /// File offset of the first byte past the entry.
    pub open spec fn end(&self) -> int {
        self.item_size.end()
    }

    /// Both fields are faithful, have the declared widths, and sit back to
    /// back from `start`.
    pub open spec fn chained(&self, bytes: Seq<u8>, start: int, sh_w: int, item_w: int) -> bool {
        &&& self.subheader_size.faithful(bytes)
        &&& self.subheader_size.wf()
        &&& self.subheader_size.offset as int == start
        &&& self.subheader_size.length as int == sh_w
        &&& self.item_size.faithful(bytes)
        &&& self.item_size.wf()
        &&& self.item_size.offset as int == start + sh_w
        &&& self.item_size.length as int == item_w
    }

    /// Read one manifest entry: a subheader-size field of `sh_size` bytes
    /// followed by an item-size field of `item_size` bytes. Fails with
    /// [`NitfError::TruncatedRead`] when the source ends inside the entry; the
    /// entry is then left unchanged.
    pub fn read(
        &mut self,
        stream: &mut ByteStream,
        sh_size: usize,
        item_size: usize,
    ) -> (r: Result<(), NitfError>)
        ensures
            final(stream).src == old(stream).src,
            old(stream).pos <= final(stream).pos,
            r is Ok <==> old(stream).can_read(sh_size + item_size as int),
            r is Ok ==> {
                &&& final(self).chained(
                    old(stream).bytes(),
                    old(stream).pos as int,
                    sh_size as int,
                    item_size as int,
                )
                &&& final(stream).pos == old(stream).pos + sh_size + item_size
            },
            r is Err ==> *final(self) == *old(self),
            r matches Err(e) ==> e is TruncatedRead,
    {
        let mut sub = NitfField::default();
        let mut item = NitfField::default();
        match sub.read(stream, sh_size) {
            Ok(()) => {},
            Err(e) => {
                return Err(e);
            },
        }
        match item.read(stream, item_size) {
            Ok(()) => {},
            Err(e) => {
                return Err(e);
            },
        }
        self.subheader_size = sub;
        self.item_size = item;
        Ok(())
    }
}

/// Every entry of the table is chained with the declared widths, and the
/// entries sit back to back from `start` in file order.
pub open spec fn entries_chained(
    entries: Seq<NitfSubHeader>,
    start: int,
    sh_w: int,
    item_w: int,
    bytes: Seq<u8>,
) -> bool {
    forall|i: int| 0 <= i < entries.len() ==> (#[trigger] entries[i]).chained(
        bytes,
        start + i * (sh_w + item_w),
        sh_w,
        item_w,
    )
}

/// A manifest table: one [`NitfSubHeader`] entry per segment of one kind,
/// the entry count taken from the decoded value of an already-read count
/// field, insertion order equal to file order equal to the order the segments
/// must be read in.
#[derive(Clone, Debug, Hash)]
pub struct NitfSubHeaderVec {
    /// The manifest entries, in file order.
    pub val: Vec<NitfSubHeader>,
}

impl NitfSubHeaderVec {
    /// Parse `n_subheader`'s bytes as a count `n`, then read `n` manifest
    /// entries of `sh_size + item_size` bytes each, in file order; a count of
    /// zero yields an empty table and no error. Fails with
    /// [`NitfError::InvalidCount`], naming `n_subheader`'s offset, when the
    /// count does not parse, and with [`NitfError::TruncatedRead`] when the
    /// source ends inside the run; on failure the table is left empty.
    pub fn read(
        &mut self,
        stream: &mut ByteStream,
        n_subheader: &NitfField,
        sh_size: usize,
        item_size: usize,
    ) -> (r: Result<(), NitfError>)
        requires
            old(self).val@.len() == 0,
        ensures
            final(stream).src == old(stream).src,
            old(stream).pos <= final(stream).pos,
            r is Ok <==> count_parses(n_subheader.bytes@) && run_fits(
                old(stream).pos as int,
                dec_value(n_subheader.bytes@),
                sh_size + item_size as int,
                old(stream).bytes().len() as int,
            ),
            r is Ok ==> {
                &&& final(self).val@.len() == dec_value(n_subheader.bytes@)
                &&& entries_chained(
                    final(self).val@,
                    old(stream).pos as int,
                    sh_size as int,
                    item_size as int,
                    old(stream).bytes(),
                )
                &&& final(stream).pos as int == old(stream).pos
                    + dec_value(n_subheader.bytes@) * (sh_size + item_size as int)
            },
            r is Err ==> *final(self) == *old(self),
            !count_parses(n_subheader.bytes@) ==> r == Err::<(), NitfError>(
                NitfError::InvalidCount { offset: n_subheader.offset },
            ) && final(stream).pos == old(stream).pos,
            r matches Err(e) ==> e is InvalidCount || e is TruncatedRead,
    {
        let count = match parse_count(&n_subheader.bytes, n_subheader.offset) {
            Ok(c) => c,
            Err(e) => {
                return Err(e);
            },
        };
        let ghost start = stream.pos as int;
        let ghost bytes = stream.bytes();
        let ghost width = sh_size + item_size as int;
        let mut out: Vec<NitfSubHeader> = Vec::new();
        let mut i: u64 = 0;
        while i < count
            invariant
                0 <= i <= count,
                count as int == dec_value(n_subheader.bytes@),
                count_parses(n_subheader.bytes@),
                stream.src == old(stream).src,
                bytes == stream.src.bytes(),
                width == sh_size + item_size as int,
                stream.pos as int == start + i * width,
                start == old(stream).pos as int,
                start <= stream.pos as int,
                i == 0 || stream.pos as int <= bytes.len() as int,
                out@.len() == i,
                entries_chained(out@, start, sh_size as int, item_size as int, bytes),
            decreases count - i,
        {
            let mut seg = NitfSubHeader { subheader_size: NitfField::default(), item_size: NitfField::default() };
            match seg.read(stream, sh_size, item_size) {
                Ok(()) => {},
                Err(e) => {
                    proof {
                        assert(i * width + width <= count * width) by (nonlinear_arith)
                            requires
                                0 <= i,
                                i + 1 <= count,
                                width >= 0,
                        ;
                    }
                    return Err(e);
                },
            }
            out.push(seg);
            i = i + 1;
            proof {
                assert(stream.pos as int == start + i * width) by (nonlinear_arith)
                    requires
                        stream.pos as int == start + (i - 1) * width + width,
                ;
            }
        }
        self.val = out;
        Ok(())
    }
}

/// The security block shared by header kinds: sixteen fixed-width fields,
/// 167 bytes in all, in the fixed order of the format.
pub open spec fn security_len() -> int {
    167
}

/// The fixed-width security fields carried by the primary header and by
/// segment subheaders, in file order.
#[derive(Clone, Debug, Hash)]
#[allow(non_snake_case)]
pub struct Security {
    /// Security Classification
    pub CLAS: NitfField,
    /// Classification Security System
    pub CLSY: NitfField,
    /// Codewords
    pub CODE: NitfField,
    /// Control and Handling
    pub CTLH: NitfField,
    /// Releasing Instructions
    pub REL: NitfField,
    /// Declassification Type
    pub DCTP: NitfField,
    /// Declassification Date
    pub DCDT: NitfField,
    /// Declassification Exemption
    pub DCXM: NitfField,
    /// Downgrade
    pub DG: NitfField,
    /// Downgrade Date
    pub DGDT: NitfField,
    /// Classification Text
    pub CLTX: NitfField,
    /// Classification Authority Type
    pub CATP: NitfField,
    /// Classification Authority
    pub CAUT: NitfField,
    /// Classification Reason
    pub CRSN: NitfField,
    /// Security Source Date
    pub SRDT: NitfField,
    /// Security Control Number
    pub CTLN: NitfField,
}

impl Security {
    /// Every security field is faithful, has its format-fixed width, and the
    /// block sits contiguously from `start`.
    pub open spec fn chained_from(&self, bytes: Seq<u8>, start: int) -> bool {
        &&& self.CLAS.faithful(bytes) && self.CLAS.wf() && self.CLAS.offset as int == start
            && self.CLAS.length == 1
        &&& self.CLSY.faithful(bytes) && self.CLSY.wf() && self.CLSY.offset as int == start + 1
            && self.CLSY.length == 2
        &&& self.CODE.faithful(bytes) && self.CODE.wf() && self.CODE.offset as int == start + 3
            && self.CODE.length == 11
        &&& self.CTLH.faithful(bytes) && self.CTLH.wf() && self.CTLH.offset as int == start + 14
            && self.CTLH.length == 2
        &&& self.REL.faithful(bytes) && self.REL.wf() && self.REL.offset as int == start + 16
            && self.REL.length == 20
        &&& self.DCTP.faithful(bytes) && self.DCTP.wf() && self.DCTP.offset as int == start + 36
            && self.DCTP.length == 2
        &&& self.DCDT.faithful(bytes) && self.DCDT.wf() && self.DCDT.offset as int == start + 38
            && self.DCDT.length == 8
        &&& self.DCXM.faithful(bytes) && self.DCXM.wf() && self.DCXM.offset as int == start + 46
            && self.DCXM.length == 4
        &&& self.DG.faithful(bytes) && self.DG.wf() && self.DG.offset as int == start + 50
            && self.DG.length == 1
        &&& self.DGDT.faithful(bytes) && self.DGDT.wf() && self.DGDT.offset as int == start + 51
            && self.DGDT.length == 8
        &&& self.CLTX.faithful(bytes) && self.CLTX.wf() && self.CLTX.offset as int == start + 59
            && self.CLTX.length == 43
        &&& self.CATP.faithful(bytes) && self.CATP.wf() && self.CATP.offset as int == start + 102
            && self.CATP.length == 1
        &&& self.CAUT.faithful(bytes) && self.CAUT.wf() && self.CAUT.offset as int == start + 103
            && self.CAUT.length == 40
        &&& self.CRSN.faithful(bytes) && self.CRSN.wf() && self.CRSN.offset as int == start + 143
            && self.CRSN.length == 1
        &&& self.SRDT.faithful(bytes) && self.SRDT.wf() && self.SRDT.offset as int == start + 144
            && self.SRDT.length == 8
        &&& self.CTLN.faithful(bytes) && self.CTLN.wf() && self.CTLN.offset as int == start + 152
            && self.CTLN.length == 15
    }

    /// Read the sixteen security fields in file order. Fails with
    /// [`NitfError::TruncatedRead`] when fewer than 167 bytes remain; the
    /// stream is then left wherever the failing read started.
    pub fn read(&mut self, stream: &mut ByteStream) -> (r: Result<(), NitfError>)
        ensures
            final(stream).src == old(stream).src,
            old(stream).pos <= final(stream).pos,
            r is Ok <==> old(stream).can_read(security_len()),
            r is Ok ==> {
                &&& final(self).chained_from(old(stream).bytes(), old(stream).pos as int)
                &&& final(stream).pos as int == old(stream).pos + security_len()
            },
            r matches Err(e) ==> e is TruncatedRead,
    {
        match self.CLAS.read(stream, 1) {
            Ok(()) => {},
            Err(e) => {
                return Err(e);
            },
        }
        match self.CLSY.read(stream, 2) {
            Ok(()) => {},
            Err(e) => {
                return Err(e);
            },
        }
        match self.CODE.read(stream, 11) {
            Ok(()) => {},
            Err(e) => {
                return Err(e);
            },
        }
        match self.CTLH.read(stream, 2) {
            Ok(()) => {},
            Err(e) => {
                return Err(e);
            },
        }
        match self.REL.read(stream, 20) {
            Ok(()) => {},
            Err(e) => {
                return Err(e);
            },
        }
        match self.DCTP.read(stream, 2) {
            Ok(()) => {},
            Err(e) => {
                return Err(e);
            },
        }
        match self.DCDT.read(stream, 8) {
            Ok(()) => {},
            Err(e) => {
                return Err(e);
            },
        }
        match self.DCXM.read(stream, 4) {
            Ok(()) => {},
            Err(e) => {
                return Err(e);
            },
        }
        match self.DG.read(stream, 1) {
            Ok(()) => {},
            Err(e) => {
                return Err(e);
            },
        }
        match self.DGDT.read(stream, 8) {
            Ok(()) => {},
            Err(e) => {
                return Err(e);
            },
        }
        match self.CLTX.read(stream, 43) {
            Ok(()) => {},
            Err(e) => {
                return Err(e);
            },
        }
        match self.CATP.read(stream, 1) {
            Ok(()) => {},
            Err(e) => {
                return Err(e);
            },
        }
        match self.CAUT.read(stream, 40) {
            Ok(()) => {},
            Err(e) => {
                return Err(e);
            },
        }
        match self.CRSN.read(stream, 1) {
            Ok(()) => {},
            Err(e) => {
                return Err(e);
            },
        }
        match self.SRDT.read(stream, 8) {
            Ok(()) => {},
            Err(e) => {
                return Err(e);
            },
        }
        match self.CTLN.read(stream, 15) {
            Ok(()) => {},
            Err(e) => {
                return Err(e);
            },
        }
        Ok(())
    }
}


/// Law: re-serializing a decoded field reproduces the source bytes exactly.
/// Faithfulness is round-trip on the raw bytes, not on the reformatted text:
/// the field's stored bytes are the source bytes at its recorded offset.
pub proof fn lemma_field_round_trip(f: NitfField, bytes: Seq<u8>)
    requires
        f.faithful(bytes),
    ensures
        bytes.subrange(f.offset as int, f.end()) == f.bytes@,
{
}

/// The raw bytes of a manifest table, entry after entry in file order.
pub open spec fn reserialize_entries(entries: Seq<NitfSubHeader>) -> Seq<u8>
    decreases entries.len(),
{
    if entries.len() == 0 {
        Seq::empty()
    } else {
        reserialize_entries(entries.drop_last()) + entries.last().subheader_size.bytes@
            + entries.last().item_size.bytes@
    }
}

/// Law: re-serializing a whole decoded manifest table, entry after entry,
/// reproduces the contiguous source region the table was read from, exactly.
pub proof fn lemma_table_round_trip(
    entries: Seq<NitfSubHeader>,
    bytes: Seq<u8>,
    start: int,
    sh_w: int,
    item_w: int,
)
    requires
        entries_chained(entries, start, sh_w, item_w, bytes),
        0 <= start,
        0 <= sh_w,
        0 <= item_w,
        start + entries.len() * (sh_w + item_w) <= bytes.len(),
    ensures
        reserialize_entries(entries) == bytes.subrange(
            start,
            start + entries.len() * (sh_w + item_w),
        ),
    decreases entries.len(),
{
    let w = sh_w + item_w;
    let n = entries.len() as int;
    if n == 0 {
        assert(reserialize_entries(entries) =~= bytes.subrange(start, start + n * w));
    } else {
        let rest = entries.drop_last();
        assert(n * w == (n - 1) * w + w) by (nonlinear_arith);
        assert(entries_chained(rest, start, sh_w, item_w, bytes)) by {
            assert forall|i: int| 0 <= i < rest.len() implies (#[trigger] rest[i]).chained(
                bytes,
                start + i * (sh_w + item_w),
                sh_w,
                item_w,
            ) by {
                assert(rest[i] == entries[i]);
                assert(entries[i].chained(bytes, start + i * (sh_w + item_w), sh_w, item_w));
            }
        }
        lemma_table_round_trip(rest, bytes, start, sh_w, item_w);
        let p = start + (n - 1) * w;
        assert(entries[n - 1].chained(bytes, p, sh_w, item_w));
        assert(entries.last() == entries[n - 1]);
        assert(reserialize_entries(entries) =~= bytes.subrange(start, start + n * w));
    }
}


impl NitfField {
    /// The characters the field renders as: its decoded text, or a fixed
    /// marker when the bytes are not valid text.
    pub open spec fn render_spec(&self) -> Seq<char> {
        match self.text {
            FieldText::Valid(s) => s@,
            FieldText::Undecodable => "(undecodable)"@,
        }
    }

    /// Deterministic text rendering of the field.
    pub fn render(&self) -> (r: String)
        ensures
            r@ == self.render_spec(),
    {
        match &self.text {
            FieldText::Valid(s) => s.clone(),
            FieldText::Undecodable => "(undecodable)".to_owned(),
        }
    }
}

/// The characters a run of fields renders as, each field followed by a
/// separator, in file order.
pub open spec fn render_fields_spec(fields: Seq<NitfField>) -> Seq<char>
    decreases fields.len(),
{
    if fields.len() == 0 {
        Seq::empty()
    } else {
        render_fields_spec(fields.drop_last()) + fields.last().render_spec() + ", "@
    }
}

impl NitfFieldVec {
    /// Deterministic, order-preserving text rendering of the run: each field
    /// in file order, followed by a separator.
    pub fn render(&self) -> (r: String)
        ensures
            r@ == render_fields_spec(self.val@),
    {
        let mut out = String::new();
        let mut i: usize = 0;
        while i < self.val.len()
            invariant
                0 <= i <= self.val@.len(),
                out@ == render_fields_spec(self.val@.take(i as int)),
            decreases self.val@.len() - i,
        {
            proof {
                assert(self.val@.take(i + 1).drop_last() =~= self.val@.take(i as int));
                assert(self.val@.take(i + 1).last() == self.val@[i as int]);
            }
            let elem = self.val[i].render();
            out.append(elem.as_str());
            out.append(", ");
            i = i + 1;
        }
        proof {
            assert(self.val@.take(self.val@.len() as int) =~= self.val@);
        }
        out
    }
}

impl NitfSubHeader {
    /// The characters the entry renders as: both size fields, bracketed.
    pub open spec fn render_spec(&self) -> Seq<char> {
        "["@ + self.subheader_size.render_spec() + ", "@ + self.item_size.render_spec() + "]"@
    }

    /// Deterministic text rendering of the entry.
    pub fn render(&self) -> (r: String)
        ensures
            r@ == self.render_spec(),
    {
        let mut out = String::new();
        out.append("[");
        let sub = self.subheader_size.render();
        out.append(sub.as_str());
        out.append(", ");
        let item = self.item_size.render();
        out.append(item.as_str());
        out.append("]");
        out
    }
}

/// The characters a manifest table renders as: each entry in file order,
/// preceded by a tab.
pub open spec fn render_entries_spec(entries: Seq<NitfSubHeader>) -> Seq<char>
    decreases entries.len(),
{
    if entries.len() == 0 {
        Seq::empty()
    } else {
        render_entries_spec(entries.drop_last()) + "\t"@ + entries.last().render_spec()
    }
}

impl NitfSubHeaderVec {
    /// Deterministic, order-preserving text rendering of the table.
    pub fn render(&self) -> (r: String)
        ensures
            r@ == render_entries_spec(self.val@),
    {
        let mut out = String::new();
        let mut i: usize = 0;
        while i < self.val.len()
            invariant
                0 <= i <= self.val@.len(),
                out@ == render_entries_spec(self.val@.take(i as int)),
            decreases self.val@.len() - i,
        {
            proof {
                assert(self.val@.take(i + 1).drop_last() =~= self.val@.take(i as int));
                assert(self.val@.take(i + 1).last() == self.val@[i as int]);
            }
            out.append("\t");
            let entry = self.val[i].render();
            out.append(entry.as_str());
            i = i + 1;
        }
        proof {
            assert(self.val@.take(self.val@.len() as int) =~= self.val@);
        }
        out
    }
}

impl Security {
    /// The characters the security block renders as: every field labelled, in
    /// declaration order.
    pub open spec fn render_spec(&self) -> Seq<char> {
        "CLAS: "@ + self.CLAS.render_spec() + ", CLSY: "@ + self.CLSY.render_spec() + ", CODE: "@
            + self.CODE.render_spec() + ", CTLH: "@ + self.CTLH.render_spec() + ", REL: "@
            + self.REL.render_spec() + ", DCTP: "@ + self.DCTP.render_spec() + ", DCDT: "@
            + self.DCDT.render_spec() + ", DCXM: "@ + self.DCXM.render_spec() + ", DG: "@
            + self.DG.render_spec() + ", DGDT: "@ + self.DGDT.render_spec() + ", CLTX: "@
            + self.CLTX.render_spec() + ", CATP: "@ + self.CATP.render_spec() + ", CAUT: "@
            + self.CAUT.render_spec() + ", CRSN: "@ + self.CRSN.render_spec() + ", SRDT: "@
            + self.SRDT.render_spec() + ", CTLN: "@ + self.CTLN.render_spec()
    }

    /// Deterministic, order-preserving text rendering of the security block.
    pub fn render(&self) -> (r: String)
        ensures
            r@ == self.render_spec(),
    {
        let mut out = String::new();
        out.append("CLAS: ");
        let f = self.CLAS.render();
        out.append(f.as_str());
        out.append(", CLSY: ");
        let f = self.CLSY.render();
        out.append(f.as_str());
        out.append(", CODE: ");
        let f = self.CODE.render();
        out.append(f.as_str());
        out.append(", CTLH: ");
        let f = self.CTLH.render();
        out.append(f.as_str());
        out.append(", REL: ");
        let f = self.REL.render();
        out.append(f.as_str());
        out.append(", DCTP: ");
        let f = self.DCTP.render();
        out.append(f.as_str());
        out.append(", DCDT: ");
        let f = self.DCDT.render();
        out.append(f.as_str());
        out.append(", DCXM: ");
        let f = self.DCXM.render();
        out.append(f.as_str());
        out.append(", DG: ");
        let f = self.DG.render();
        out.append(f.as_str());
        out.append(", DGDT: ");
        let f = self.DGDT.render();
        out.append(f.as_str());
        out.append(", CLTX: ");
        let f = self.CLTX.render();
        out.append(f.as_str());
        out.append(", CATP: ");
        let f = self.CATP.render();
        out.append(f.as_str());
        out.append(", CAUT: ");
        let f = self.CAUT.render();
        out.append(f.as_str());
        out.append(", CRSN: ");
        let f = self.CRSN.render();
        out.append(f.as_str());
        out.append(", SRDT: ");
        let f = self.SRDT.render();
        out.append(f.as_str());
        out.append(", CTLN: ");
        let f = self.CTLN.render();
        out.append(f.as_str());
        out
    }
}


impl Default for Security {
    /// An empty, not-yet-populated security block.
    fn default() -> (r: Self) {
        Security {
            CLAS: NitfField::default(),
            CLSY: NitfField::default(),
            CODE: NitfField::default(),
            CTLH: NitfField::default(),
            REL: NitfField::default(),
            DCTP: NitfField::default(),
            DCDT: NitfField::default(),
            DCXM: NitfField::default(),
            DG: NitfField::default(),
            DGDT: NitfField::default(),
            CLTX: NitfField::default(),
            CATP: NitfField::default(),
            CAUT: NitfField::default(),
            CRSN: NitfField::default(),
            SRDT: NitfField::default(),
            CTLN: NitfField::default(),
        }
    }
}

} // verus!
