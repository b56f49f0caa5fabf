//! The assembler: decode the primary header, then for each segment kind in
//! the fixed format order walk that kind's manifest table, reading one
//! segment per entry, strictly left to right with no backtracking. Either the
//! whole decode succeeds or the first error is reported with the segment kind,
//! index and byte offset that produced it; no partial aggregate is returned.

use crate::error::{NitfError, SegmentKind};
use crate::header::{
    dext_pos, field_at, graph_pos, header_end, imh_pos, numdes_val, numi_pos, numi_val,
    numres_val, nums_val, numt_val, primary_header_ok, resh_pos, textfiles_pos, NitfHeader,
};
use crate::segment::{NitfSegmentHeader, OpaqueHeader, Segment, SegmentPayload};
use crate::source::DataSource;
use crate::stream::ByteStream;
use crate::types::{count_parses, dec_value, entries_chained, parse_count, NitfSubHeaderVec};
use vstd::prelude::*;
use vstd::string::StringExecFns;

verus! {

/// Offset of manifest entry `i` inside a table at `tpos` whose entries are
/// `sh_w + item_w` bytes wide.
pub open spec fn entry_pos(tpos: int, sh_w: int, item_w: int, i: int) -> int {
    tpos + i * (sh_w + item_w)
}

/// The declared subheader size of manifest entry `i`, straight from the
/// source bytes.
pub open spec fn entry_hsize(bytes: Seq<u8>, tpos: int, sh_w: int, item_w: int, i: int) -> int {
    dec_value(field_at(bytes, entry_pos(tpos, sh_w, item_w, i), sh_w))
}

/// The declared payload size of manifest entry `i`, straight from the source
/// bytes.
pub open spec fn entry_dsize(bytes: Seq<u8>, tpos: int, sh_w: int, item_w: int, i: int) -> int {
    dec_value(field_at(bytes, entry_pos(tpos, sh_w, item_w, i) + sh_w, item_w))
}

/// Both size fields of manifest entry `i` parse as counts.
pub open spec fn entry_ok(bytes: Seq<u8>, tpos: int, sh_w: int, item_w: int, i: int) -> bool {
    &&& count_parses(field_at(bytes, entry_pos(tpos, sh_w, item_w, i), sh_w))
    &&& count_parses(field_at(bytes, entry_pos(tpos, sh_w, item_w, i) + sh_w, item_w))
}

/// File position of segment `i` of a kind: the walk start plus the header and
/// payload sizes of every earlier entry of that kind's manifest table.
pub open spec fn walk_pos(
    bytes: Seq<u8>,
    tpos: int,
    sh_w: int,
    item_w: int,
    start: int,
    i: int,
) -> int
    decreases i,
{
    if i <= 0 {
        start
    } else {
        walk_pos(bytes, tpos, sh_w, item_w, start, i - 1) + entry_hsize(
            bytes,
            tpos,
            sh_w,
            item_w,
            i - 1,
        ) + entry_dsize(bytes, tpos, sh_w, item_w, i - 1)
    }
}

/// Segment `i` of the walk reads without error: its manifest entry's sizes
/// parse and its header-plus-payload region lies inside the source.
pub open spec fn walk_step_ok(
    bytes: Seq<u8>,
    tpos: int,
    sh_w: int,
    item_w: int,
    start: int,
    len: int,
    i: int,
) -> bool {
    &&& entry_ok(bytes, tpos, sh_w, item_w, i)
    &&& walk_pos(bytes, tpos, sh_w, item_w, start, i) + entry_hsize(bytes, tpos, sh_w, item_w, i)
        + entry_dsize(bytes, tpos, sh_w, item_w, i) <= len
}

/// The whole walk of one kind's `n` segments succeeds: every manifest entry's
/// sizes parse and every segment's header-plus-payload region lies inside the
/// source.
pub open spec fn walk_ok(
    bytes: Seq<u8>,
    tpos: int,
    sh_w: int,
    item_w: int,
    start: int,
    n: int,
    len: int,
) -> bool {
    forall|i: int| 0 <= i < n ==> #[trigger] walk_step_ok(bytes, tpos, sh_w, item_w, start, len, i)
}

/// Position of the first byte past the last segment of the walk.
pub open spec fn walk_end(
    bytes: Seq<u8>,
    tpos: int,
    sh_w: int,
    item_w: int,
    start: int,
    n: int,
) -> int {
    walk_pos(bytes, tpos, sh_w, item_w, start, n)
}

/// Every decoded segment of one kind is well formed, sits exactly where the
/// walk puts it, has the sizes its manifest entry declares, and uses the
/// storage strategy chosen for the kind.
pub open spec fn segs_wf(
    segs: Seq<Segment<OpaqueHeader>>,
    bytes: Seq<u8>,
    tpos: int,
    sh_w: int,
    item_w: int,
    start: int,
    buffered: bool,
) -> bool {
    forall|i: int| 0 <= i < segs.len() ==> {
        &&& (#[trigger] segs[i]).wf(bytes)
        &&& segs[i].header_offset as int == walk_pos(bytes, tpos, sh_w, item_w, start, i)
        &&& segs[i].header_size as int == entry_hsize(bytes, tpos, sh_w, item_w, i)
        &&& segs[i].data_size as int == entry_dsize(bytes, tpos, sh_w, item_w, i)
        &&& segs[i].payload_buffered() == buffered
    }
}

/// Read one kind's segment list: one segment per manifest entry, in table
/// order. An error is wrapped with the kind and the zero-based index of the
/// failing segment.
fn read_segments(
    stream: &mut ByteStream,
    table: &NitfSubHeaderVec,
    buffered: bool,
    kind: SegmentKind,
    Ghost(tpos): Ghost<int>,
    Ghost(sh_w): Ghost<int>,
    Ghost(item_w): Ghost<int>,
) -> (r: Result<Vec<Segment<OpaqueHeader>>, NitfError>)
    requires
        entries_chained(table.val@, tpos, sh_w, item_w, old(stream).bytes()),
    ensures
        final(stream).src == old(stream).src,
        old(stream).pos <= final(stream).pos,
        r is Ok <==> walk_ok(
            old(stream).bytes(),
            tpos,
            sh_w,
            item_w,
            old(stream).pos as int,
            table.val@.len() as int,
            old(stream).bytes().len() as int,
        ),
        r matches Ok(v) ==> {
            &&& v@.len() == table.val@.len()
            &&& segs_wf(
                v@,
                old(stream).bytes(),
                tpos,
                sh_w,
                item_w,
                old(stream).pos as int,
                buffered,
            )
            &&& final(stream).pos as int == walk_end(
                old(stream).bytes(),
                tpos,
                sh_w,
                item_w,
                old(stream).pos as int,
                table.val@.len() as int,
            )
        },
        r matches Err(e) ==> (e matches NitfError::InSegment { kind: k, index, cause } && k
            == kind && 0 <= index < table.val@.len() && (*cause is InvalidCount
            || *cause is TruncatedRead || *cause is StructuralMismatch)),
{
    let ghost bytes = stream.bytes();
    let ghost start = stream.pos as int;
    let n = table.val.len();
    let mut out: Vec<Segment<OpaqueHeader>> = Vec::new();
    let mut i: usize = 0;
    while i < n
        invariant
            0 <= i <= n,
            n == table.val@.len(),
            entries_chained(table.val@, tpos, sh_w, item_w, bytes),
            stream.src == old(stream).src,
            bytes == stream.src.bytes(),
            start == old(stream).pos as int,
            stream.pos as int == walk_pos(bytes, tpos, sh_w, item_w, start, i as int),
            start <= stream.pos as int,
            i == 0 || stream.pos as int <= bytes.len() as int,
            out@.len() == i,
            walk_ok(bytes, tpos, sh_w, item_w, start, i as int, bytes.len() as int),
            segs_wf(out@, bytes, tpos, sh_w, item_w, start, buffered),
        decreases n - i,
    {
        let entry = &table.val[i];
        proof {
            assert(table.val@[i as int].chained(
                bytes,
                entry_pos(tpos, sh_w, item_w, i as int),
                sh_w,
                item_w,
            ));
            assert(entry.subheader_size.bytes@ == field_at(
                bytes,
                entry_pos(tpos, sh_w, item_w, i as int),
                sh_w,
            ));
            assert(entry.item_size.bytes@ == field_at(
                bytes,
                entry_pos(tpos, sh_w, item_w, i as int) + sh_w,
                item_w,
            ));
        }
        let hsize64 = match parse_count(&entry.subheader_size.bytes, entry.subheader_size.offset) {
            Ok(v) => v,
            Err(e) => {
                proof {
                    assert(!walk_step_ok(
                        bytes,
                        tpos,
                        sh_w,
                        item_w,
                        start,
                        bytes.len() as int,
                        i as int,
                    ));
                }
                return Err(NitfError::InSegment {
                    kind,
                    index: i as u64,
                    cause: Box::new(e),
                });
            },
        };
        let dsize64 = match parse_count(&entry.item_size.bytes, entry.item_size.offset) {
            Ok(v) => v,
            Err(e) => {
                proof {
                    assert(!walk_step_ok(
                        bytes,
                        tpos,
                        sh_w,
                        item_w,
                        start,
                        bytes.len() as int,
                        i as int,
                    ));
                }
                return Err(NitfError::InSegment {
                    kind,
                    index: i as u64,
                    cause: Box::new(e),
                });
            },
        };
        proof {
            crate::types::lemma_dec_value_nonneg(entry.subheader_size.bytes@);
            crate::types::lemma_dec_value_nonneg(entry.item_size.bytes@);
        }
        let len = stream.src.len();
        if hsize64 > usize::MAX as u64 || dsize64 > usize::MAX as u64 {
            proof {
                assert(hsize64 as int == entry_hsize(bytes, tpos, sh_w, item_w, i as int));
                assert(dsize64 as int == entry_dsize(bytes, tpos, sh_w, item_w, i as int));
                assert(!walk_step_ok(bytes, tpos, sh_w, item_w, start, bytes.len() as int, i as int));
            }
            return Err(NitfError::InSegment {
                kind,
                index: i as u64,
                cause: Box::new(NitfError::TruncatedRead {
                    offset: stream.stream_position(),
                    requested: if hsize64 > dsize64 {
                        hsize64
                    } else {
                        dsize64
                    },
                    available: len as u64,
                }),
            });
        }
        let hsize = hsize64 as usize;
        let dsize = dsize64 as usize;
        let seg_or_err = if buffered {
            Segment::<OpaqueHeader>::from_reader(stream, hsize, dsize)
        } else {
            Segment::<OpaqueHeader>::from_reader_mapped(stream, hsize, dsize)
        };
        let seg = match seg_or_err {
            Ok(s) => s,
            Err(e) => {
                proof {
                    assert(hsize as int == entry_hsize(bytes, tpos, sh_w, item_w, i as int));
                    assert(dsize as int == entry_dsize(bytes, tpos, sh_w, item_w, i as int));
                    assert(!walk_step_ok(
                        bytes,
                        tpos,
                        sh_w,
                        item_w,
                        start,
                        bytes.len() as int,
                        i as int,
                    ));
                }
                return Err(NitfError::InSegment {
                    kind,
                    index: i as u64,
                    cause: Box::new(e),
                });
            },
        };
        out.push(seg);
        i = i + 1;
        proof {
            let j = i as int - 1;
            assert(entry.subheader_size.bytes@ == field_at(
                bytes,
                entry_pos(tpos, sh_w, item_w, j),
                sh_w,
            ));
            assert(entry.item_size.bytes@ == field_at(
                bytes,
                entry_pos(tpos, sh_w, item_w, j) + sh_w,
                item_w,
            ));
            assert(entry_ok(bytes, tpos, sh_w, item_w, j));
            assert(hsize as int == entry_hsize(bytes, tpos, sh_w, item_w, j));
            assert(dsize as int == entry_dsize(bytes, tpos, sh_w, item_w, j));
            assert(walk_pos(bytes, tpos, sh_w, item_w, start, i as int) == walk_pos(
                bytes,
                tpos,
                sh_w,
                item_w,
                start,
                j,
            ) + entry_hsize(bytes, tpos, sh_w, item_w, j) + entry_dsize(
                bytes,
                tpos,
                sh_w,
                item_w,
                j,
            ));
            assert(seg.header_offset + seg.header_size == walk_pos(
                bytes,
                tpos,
                sh_w,
                item_w,
                start,
                j,
            ) + hsize);
            assert(walk_pos(bytes, tpos, sh_w, item_w, start, j) + entry_hsize(
                bytes,
                tpos,
                sh_w,
                item_w,
                j,
            ) + entry_dsize(bytes, tpos, sh_w, item_w, j) <= bytes.len() as int);
            assert forall|k: int| 0 <= k < i as int implies #[trigger] walk_step_ok(
                bytes,
                tpos,
                sh_w,
                item_w,
                start,
                bytes.len() as int,
                k,
            ) by {
                if k == j {
                    assert(walk_step_ok(bytes, tpos, sh_w, item_w, start, bytes.len() as int, k));
                } else {
                    assert(walk_ok(bytes, tpos, sh_w, item_w, start, j, bytes.len() as int));
                    assert(walk_step_ok(bytes, tpos, sh_w, item_w, start, bytes.len() as int, k));
                }
            }
        }
    }
    Ok(out)
}


/// File position of the first image segment: right after the primary header.
pub open spec fn image_start(bytes: Seq<u8>) -> int {
    header_end(bytes, 0)
}

/// File position of the first graphic segment.
pub open spec fn graphic_start(bytes: Seq<u8>) -> int {
    walk_end(bytes, imh_pos(0), 6, 10, image_start(bytes), numi_val(bytes, 0))
}

/// File position of the first text segment.
pub open spec fn text_start(bytes: Seq<u8>) -> int {
    walk_end(bytes, graph_pos(bytes, 0), 4, 6, graphic_start(bytes), nums_val(bytes, 0))
}

/// File position of the first data-extension segment.
pub open spec fn des_start(bytes: Seq<u8>) -> int {
    walk_end(bytes, textfiles_pos(bytes, 0), 4, 5, text_start(bytes), numt_val(bytes, 0))
}

/// File position of the first reserved-extension segment.
pub open spec fn res_start(bytes: Seq<u8>) -> int {
    walk_end(bytes, dext_pos(bytes, 0), 4, 9, des_start(bytes), numdes_val(bytes, 0))
}

/// The image-segment walk lies inside the source with parsing manifest sizes.
pub open spec fn image_walk_ok(bytes: Seq<u8>) -> bool {
    walk_ok(bytes, imh_pos(0), 6, 10, image_start(bytes), numi_val(bytes, 0), bytes.len() as int)
}

/// The graphic-segment walk lies inside the source.
pub open spec fn graphic_walk_ok(bytes: Seq<u8>) -> bool {
    walk_ok(
        bytes,
        graph_pos(bytes, 0),
        4,
        6,
        graphic_start(bytes),
        nums_val(bytes, 0),
        bytes.len() as int,
    )
}

/// The text-segment walk lies inside the source.
pub open spec fn text_walk_ok(bytes: Seq<u8>) -> bool {
    walk_ok(
        bytes,
        textfiles_pos(bytes, 0),
        4,
        5,
        text_start(bytes),
        numt_val(bytes, 0),
        bytes.len() as int,
    )
}

/// The data-extension-segment walk lies inside the source.
pub open spec fn des_walk_ok(bytes: Seq<u8>) -> bool {
    walk_ok(
        bytes,
        dext_pos(bytes, 0),
        4,
        9,
        des_start(bytes),
        numdes_val(bytes, 0),
        bytes.len() as int,
    )
}

/// The reserved-extension-segment walk lies inside the source.
pub open spec fn res_walk_ok(bytes: Seq<u8>) -> bool {
    walk_ok(
        bytes,
        resh_pos(bytes, 0),
        4,
        7,
        res_start(bytes),
        numres_val(bytes, 0),
        bytes.len() as int,
    )
}

/// A whole container decodes without error from `bytes`: the source is empty
/// (an empty aggregate is returned), or the primary header decodes at offset
/// zero and every segment of every kind, walked in format order, lies inside
/// the source with parsing manifest sizes.
pub open spec fn nitf_decodes(bytes: Seq<u8>) -> bool {
    ||| bytes.len() == 0
    ||| {
        &&& primary_header_ok(bytes, 0)
        &&& image_walk_ok(bytes)
        &&& graphic_walk_ok(bytes)
        &&& text_walk_ok(bytes)
        &&& des_walk_ok(bytes)
        &&& res_walk_ok(bytes)
    }
}

/// The decoded container: the primary header and, for each segment kind in
/// format order, that kind's segments in file order. The aggregate owns the
/// byte source; mapped segments window it zero-copy.
#[derive(Debug)]
pub struct Nitf {
    /// The primary header, held as a payload-less segment at offset zero.
    pub nitf_header: Segment<NitfHeader>,
    /// Image segments, zero-copy.
    pub image_segments: Vec<Segment<OpaqueHeader>>,
    /// Graphic segments, buffered.
    pub graphic_segments: Vec<Segment<OpaqueHeader>>,
    /// Text segments, buffered.
    pub text_segments: Vec<Segment<OpaqueHeader>>,
    /// Data extension segments, buffered.
    pub data_extension_segments: Vec<Segment<OpaqueHeader>>,
    /// Reserved extension segments, zero-copy.
    pub reserved_extension_segments: Vec<Segment<OpaqueHeader>>,
    /// The byte source the container was decoded from.
    pub src: DataSource,
}

/// The well-formed empty aggregate: no segments of any kind and a zero-sized
/// primary header record.
pub open spec fn is_empty_aggregate(n: Nitf) -> bool {
    &&& n.image_segments@.len() == 0
    &&& n.graphic_segments@.len() == 0
    &&& n.text_segments@.len() == 0
    &&& n.data_extension_segments@.len() == 0
    &&& n.reserved_extension_segments@.len() == 0
    &&& n.nitf_header.header_offset == 0
    &&& n.nitf_header.header_size == 0
    &&& n.nitf_header.data_size == 0
}

impl Nitf {
    /// Everything the decode guarantees of a non-empty source: the primary
    /// header is faithful at offset zero, and each kind's list has exactly as
    /// many segments as its count field declares, every one well formed at
    /// the position the walk puts it, with its manifest sizes, image and
    /// reserved-extension segments zero-copy and the rest buffered.
    pub open spec fn wf_decoded(&self) -> bool {
        let bytes = self.src.bytes();
        &&& self.nitf_header.meta.wf_header(bytes, 0)
        &&& self.nitf_header.wf(bytes)
        &&& self.nitf_header.header_offset == 0
        &&& self.nitf_header.header_size as int == header_end(bytes, 0)
        &&& self.nitf_header.data_size == 0
        &&& self.image_segments@.len() == numi_val(bytes, 0)
        &&& segs_wf(self.image_segments@, bytes, imh_pos(0), 6, 10, image_start(bytes), false)
        &&& self.graphic_segments@.len() == nums_val(bytes, 0)
        &&& segs_wf(
            self.graphic_segments@,
            bytes,
            graph_pos(bytes, 0),
            4,
            6,
            graphic_start(bytes),
            true,
        )
        &&& self.text_segments@.len() == numt_val(bytes, 0)
        &&& segs_wf(
            self.text_segments@,
            bytes,
            textfiles_pos(bytes, 0),
            4,
            5,
            text_start(bytes),
            true,
        )
        &&& self.data_extension_segments@.len() == numdes_val(bytes, 0)
        &&& segs_wf(
            self.data_extension_segments@,
            bytes,
            dext_pos(bytes, 0),
            4,
            9,
            des_start(bytes),
            true,
        )
        &&& self.reserved_extension_segments@.len() == numres_val(bytes, 0)
        &&& segs_wf(
            self.reserved_extension_segments@,
            bytes,
            resh_pos(bytes, 0),
            4,
            7,
            res_start(bytes),
            false,
        )
    }

    /// Decode a whole container from a byte source positioned at offset zero
    /// of a primary header. An empty source yields the well-formed empty
    /// aggregate, not an error. Otherwise the primary header is decoded, then
    /// for each kind, in format order, exactly as many segments as the header
    /// counts declare. Either the whole decode succeeds or the first error is
    /// returned: a count field that does not parse as
    /// [`NitfError::InvalidCount`] with that field's offset, an error inside a
    /// segment wrapped as [`NitfError::InSegment`] with the kind and index.
    pub fn decode(src: DataSource) -> (r: Result<Nitf, NitfError>)
        ensures
            r is Ok <==> nitf_decodes(src.bytes()),
            r matches Ok(n) ==> {
                &&& n.src == src
                &&& (src.bytes().len() == 0 ==> is_empty_aggregate(n))
                &&& (src.bytes().len() > 0 ==> n.wf_decoded())
            },
            ({
                let bytes = src.bytes();
                bytes.len() > 0 && imh_pos(0) <= bytes.len() && !count_parses(
                    field_at(bytes, numi_pos(0), 3),
                ) ==> r == Err::<Nitf, NitfError>(NitfError::InvalidCount {
                    offset: numi_pos(0) as u64,
                })
            }),
            r matches Err(e) ==> (e is InvalidCount || e is TruncatedRead
                || e is StructuralMismatch || e is InSegment),
            ({
                let bytes = src.bytes();
                bytes.len() > 0 && primary_header_ok(bytes, 0) && !image_walk_ok(bytes) ==> (
                r matches Err(e) && e matches NitfError::InSegment { kind: k, index, cause } && k
                    == SegmentKind::Image)
            }),
            ({
                let bytes = src.bytes();
                bytes.len() > 0 && primary_header_ok(bytes, 0) && image_walk_ok(bytes)
                    && !graphic_walk_ok(bytes) ==> (r matches Err(e) && e matches
                NitfError::InSegment { kind: k, index, cause } && k == SegmentKind::Graphic)
            }),
            ({
                let bytes = src.bytes();
                bytes.len() > 0 && primary_header_ok(bytes, 0) && image_walk_ok(bytes)
                    && graphic_walk_ok(bytes) && !text_walk_ok(bytes) ==> (r matches Err(e)
                    && e matches NitfError::InSegment { kind: k, index, cause } && k
                    == SegmentKind::Text)
            }),
            ({
                let bytes = src.bytes();
                bytes.len() > 0 && primary_header_ok(bytes, 0) && image_walk_ok(bytes)
                    && graphic_walk_ok(bytes) && text_walk_ok(bytes) && !des_walk_ok(bytes) ==> (
                r matches Err(e) && e matches NitfError::InSegment { kind: k, index, cause } && k
                    == SegmentKind::DataExtension)
            }),
            ({
                let bytes = src.bytes();
                bytes.len() > 0 && primary_header_ok(bytes, 0) && image_walk_ok(bytes)
                    && graphic_walk_ok(bytes) && text_walk_ok(bytes) && des_walk_ok(bytes)
                    && !res_walk_ok(bytes) ==> (r matches Err(e) && e matches
                NitfError::InSegment { kind: k, index, cause } && k
                    == SegmentKind::ReservedExtension)
            }),
    {
        let mut stream = ByteStream::open(src);
        let len0 = stream.src.len();
        if len0 == 0 {
            return Ok(Nitf {
                nitf_header: Segment {
                    meta: NitfHeader::default(),
                    data: SegmentPayload::Buffered(Vec::new()),
                    header_offset: 0,
                    header_size: 0,
                    data_offset: 0,
                    data_size: 0,
                },
                image_segments: Vec::new(),
                graphic_segments: Vec::new(),
                text_segments: Vec::new(),
                data_extension_segments: Vec::new(),
                reserved_extension_segments: Vec::new(),
                src: stream.src,
            });
        }
        let ghost bytes = stream.bytes();
        let meta = match NitfHeader::from_reader(&mut stream) {
            Ok(h) => h,
            Err(e) => {
                return Err(e);
            },
        };
        let header_size = stream.pos;
        let empty_payload: Vec<u8> = Vec::new();
        proof {
            assert(empty_payload@ =~= bytes.subrange(header_size as int, header_size as int));
        }
        let nitf_header = Segment::<NitfHeader> {
            meta,
            data: SegmentPayload::Buffered(empty_payload),
            header_offset: 0,
            header_size,
            data_offset: header_size,
            data_size: 0,
        };
        let image_segments = match read_segments(
            &mut stream,
            &nitf_header.meta.IMHEADERS,
            false,
            SegmentKind::Image,
            Ghost(imh_pos(0)),
            Ghost(6),
            Ghost(10),
        ) {
            Ok(v) => v,
            Err(e) => {
                return Err(e);
            },
        };
        let graphic_segments = match read_segments(
            &mut stream,
            &nitf_header.meta.GRAPHHEADERS,
            true,
            SegmentKind::Graphic,
            Ghost(graph_pos(bytes, 0)),
            Ghost(4),
            Ghost(6),
        ) {
            Ok(v) => v,
            Err(e) => {
                return Err(e);
            },
        };
        let text_segments = match read_segments(
            &mut stream,
            &nitf_header.meta.TEXTFILES,
            true,
            SegmentKind::Text,
            Ghost(textfiles_pos(bytes, 0)),
            Ghost(4),
            Ghost(5),
        ) {
            Ok(v) => v,
            Err(e) => {
                return Err(e);
            },
        };
        let data_extension_segments = match read_segments(
            &mut stream,
            &nitf_header.meta.DEXTHEADERS,
            true,
            SegmentKind::DataExtension,
            Ghost(dext_pos(bytes, 0)),
            Ghost(4),
            Ghost(9),
        ) {
            Ok(v) => v,
            Err(e) => {
                return Err(e);
            },
        };
        let reserved_extension_segments = match read_segments(
            &mut stream,
            &nitf_header.meta.RESHEADERS,
            false,
            SegmentKind::ReservedExtension,
            Ghost(resh_pos(bytes, 0)),
            Ghost(4),
            Ghost(7),
        ) {
            Ok(v) => v,
            Err(e) => {
                return Err(e);
            },
        };
        Ok(Nitf {
            nitf_header,
            image_segments,
            graphic_segments,
            text_segments,
            data_extension_segments,
            reserved_extension_segments,
            src: stream.src,
        })
    }
}

/// Decode a container from an optional byte source. An absent source yields
/// the well-formed empty aggregate, never an error; a present one is decoded
/// as [`Nitf::decode`] does.
pub fn read_nitf(src: Option<DataSource>) -> (r: Result<Nitf, NitfError>)
    ensures
        src is None ==> r is Ok,
        r matches Ok(n) ==> (src is None ==> is_empty_aggregate(n)),
        src matches Some(s) ==> {
            &&& (r is Ok <==> nitf_decodes(s.bytes()))
            &&& (r matches Ok(n) ==> {
                &&& n.src == s
                &&& (s.bytes().len() == 0 ==> is_empty_aggregate(n))
                &&& (s.bytes().len() > 0 ==> n.wf_decoded())
            })
            &&& ({
                let bytes = s.bytes();
                bytes.len() > 0 && imh_pos(0) <= bytes.len() && !count_parses(
                    field_at(bytes, numi_pos(0), 3),
                ) ==> r == Err::<Nitf, NitfError>(NitfError::InvalidCount {
                    offset: numi_pos(0) as u64,
                })
            })
        },
{
    match src {
        Some(s) => Nitf::decode(s),
        None => Nitf::decode(DataSource::Buffered(Vec::new())),
    }
}


/// Law: a segment count of zero yields an empty walk that cannot fail and
/// consumes no bytes, whatever the source holds.
pub proof fn lemma_zero_count_walk(
    bytes: Seq<u8>,
    tpos: int,
    sh_w: int,
    item_w: int,
    start: int,
    len: int,
)
    ensures
        walk_ok(bytes, tpos, sh_w, item_w, start, 0, len),
        walk_end(bytes, tpos, sh_w, item_w, start, 0) == start,
{
}

/// Law: every segment list of a decoded container has exactly as many
/// segments as the corresponding count field of the primary header declares.
pub proof fn lemma_list_lengths(n: Nitf)
    requires
        n.wf_decoded(),
    ensures
        n.image_segments@.len() == numi_val(n.src.bytes(), 0),
        n.graphic_segments@.len() == nums_val(n.src.bytes(), 0),
        n.text_segments@.len() == numt_val(n.src.bytes(), 0),
        n.data_extension_segments@.len() == numdes_val(n.src.bytes(), 0),
        n.reserved_extension_segments@.len() == numres_val(n.src.bytes(), 0),
{
}


/// The characters a segment list renders as: each segment's header region,
/// bracketed, in file order.
pub open spec fn render_opaque_segs_spec(segs: Seq<Segment<OpaqueHeader>>) -> Seq<char>
    decreases segs.len(),
{
    if segs.len() == 0 {
        Seq::empty()
    } else {
        render_opaque_segs_spec(segs.drop_last()) + "["@ + segs.last().meta.raw.render_spec()
            + "]"@
    }
}

/// Render one segment list, each segment bracketed, in file order.
fn render_opaque_segs(segs: &Vec<Segment<OpaqueHeader>>) -> (r: String)
    ensures
        r@ == render_opaque_segs_spec(segs@),
{
    let mut out = String::new();
    let mut i: usize = 0;
    while i < segs.len()
        invariant
            0 <= i <= segs@.len(),
            out@ == render_opaque_segs_spec(segs@.take(i as int)),
        decreases segs@.len() - i,
    {
        proof {
            assert(segs@.take(i + 1).drop_last() =~= segs@.take(i as int));
            assert(segs@.take(i + 1).last() == segs@[i as int]);
        }
        out.append("[");
        let part = segs[i].meta.raw.render();
        out.append(part.as_str());
        out.append("]");
        i = i + 1;
    }
    proof {
        assert(segs@.take(segs@.len() as int) =~= segs@);
    }
    out
}

impl Nitf {
    /// The characters the whole container renders as: the primary header,
    /// then every segment of every kind, each part bracketed, segments in
    /// file order.
    pub open spec fn render_spec(&self) -> Seq<char> {
        "["@ + self.nitf_header.meta.render_spec() + "]"@ + render_opaque_segs_spec(
            self.image_segments@,
        ) + render_opaque_segs_spec(self.graphic_segments@) + render_opaque_segs_spec(
            self.text_segments@,
        ) + render_opaque_segs_spec(self.data_extension_segments@) + render_opaque_segs_spec(
            self.reserved_extension_segments@,
        )
    }

    /// Deterministic, order-preserving text rendering of the container, for
    /// diagnostics.
    pub fn render(&self) -> (r: String)
        ensures
            r@ == self.render_spec(),
    {
        let mut out = String::new();
        out.append("[");
        let hdr = self.nitf_header.meta.render();
        out.append(hdr.as_str());
        out.append("]");
        let part = render_opaque_segs(&self.image_segments);
        out.append(part.as_str());
        let part = render_opaque_segs(&self.graphic_segments);
        out.append(part.as_str());
        let part = render_opaque_segs(&self.text_segments);
        out.append(part.as_str());
        let part = render_opaque_segs(&self.data_extension_segments);
        out.append(part.as_str());
        let part = render_opaque_segs(&self.reserved_extension_segments);
        out.append(part.as_str());
        out
    }
}


/// Law: the walk is contiguous: each segment of a kind starts exactly where
/// the previous one's payload ended, with no gap and no overlap.
pub proof fn lemma_walk_contiguous(
    bytes: Seq<u8>,
    tpos: int,
    sh_w: int,
    item_w: int,
    start: int,
    i: int,
)
    requires
        0 <= i,
    ensures
        walk_pos(bytes, tpos, sh_w, item_w, start, i + 1) == walk_pos(
            bytes,
            tpos,
            sh_w,
            item_w,
            start,
            i,
        ) + entry_hsize(bytes, tpos, sh_w, item_w, i) + entry_dsize(bytes, tpos, sh_w, item_w, i),
{
}


impl Default for Nitf {
    /// The well-formed empty aggregate over an empty source: the value
    /// decoding a zero-length or absent source yields.
    fn default() -> (r: Self)
        ensures
            is_empty_aggregate(r),
            r.src.bytes().len() == 0,
    {
        Nitf {
            nitf_header: Segment {
                meta: NitfHeader::default(),
                data: SegmentPayload::Buffered(Vec::new()),
                header_offset: 0,
                header_size: 0,
                data_offset: 0,
                data_size: 0,
            },
            image_segments: Vec::new(),
            graphic_segments: Vec::new(),
            text_segments: Vec::new(),
            data_extension_segments: Vec::new(),
            reserved_extension_segments: Vec::new(),
            src: DataSource::Buffered(Vec::new()),
        }
    }
}

} // verus!
