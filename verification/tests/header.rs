use nitf::error::NitfError;
use nitf::header::FileHeader;
use nitf::header::NitfHeader;
use nitf::source::DataSource;
use nitf::stream::ByteStream;

fn stream_of(bytes: &[u8]) -> ByteStream {
    ByteStream::open(DataSource::Buffered(bytes.to_vec()))
}

/// A primary header with one image entry and zero counts for every other
/// kind.
fn one_image_header() -> Vec<u8> {
    let mut v = vec![b' '; 360];
    v[0..4].copy_from_slice(b"NITF");
    v[4..9].copy_from_slice(b"02.10");
    v.extend_from_slice(b"001");
    v.extend_from_slice(b"000100");
    v.extend_from_slice(b"0000000512");
    v.extend_from_slice(b"000");
    v.extend_from_slice(b"000");
    v.extend_from_slice(b"000");
    v.extend_from_slice(b"000");
    v.extend_from_slice(b"000");
    v.extend_from_slice(b"00000");
    v.extend_from_slice(b"00000");
    v
}

#[test]
fn header_fields_sit_at_wire_offsets() {
    let bytes = one_image_header();
    let mut stream = stream_of(&bytes);
    let h = NitfHeader::from_reader(&mut stream).unwrap();
    assert_eq!(h.FHDR.bytes, b"NITF".to_vec());
    assert_eq!(h.FHDR.offset, 0);
    assert_eq!(h.FVER.bytes, b"02.10".to_vec());
    assert_eq!(h.FVER.offset, 4);
    assert_eq!(h.HL.offset, 354);
    assert_eq!(h.NUMI.offset, 360);
    assert_eq!(h.NUMI.bytes, b"001".to_vec());
    assert_eq!(h.IMHEADERS.val.len(), 1);
    assert_eq!(h.IMHEADERS.val[0].subheader_size.offset, 363);
    assert_eq!(h.IMHEADERS.val[0].item_size.offset, 369);
    // One 16-byte image entry shifts everything after the table.
    assert_eq!(h.NUMS.offset, 379);
    assert_eq!(h.NUMX.offset, 382);
    assert_eq!(h.NUMT.offset, 385);
    assert_eq!(h.NUMDES.offset, 388);
    assert_eq!(h.NUMRES.offset, 391);
    assert_eq!(h.UDHDL.offset, 394);
    assert_eq!(h.XHDL.offset, 399);
    assert_eq!(stream.pos, 404);
    assert_eq!(bytes.len(), 404);
}

#[test]
fn header_rejects_bad_graphic_count() {
    let mut bytes = one_image_header();
    // Overwrite NUMS with non-digit text.
    bytes[379..382].copy_from_slice(b"1x0");
    let mut stream = stream_of(&bytes);
    match NitfHeader::from_reader(&mut stream) {
        Err(NitfError::InvalidCount { offset }) => assert_eq!(offset, 379),
        _ => panic!("expected InvalidCount at the graphic count's offset"),
    }
}

#[test]
fn header_rejects_truncated_table() {
    let mut bytes = one_image_header();
    // Declare two image entries while only one is present: the table run
    // swallows the rest of the header and the following count field is cut
    // short.
    bytes[360..363].copy_from_slice(b"099");
    let mut stream = stream_of(&bytes);
    assert!(matches!(
        NitfHeader::from_reader(&mut stream),
        Err(NitfError::TruncatedRead { .. })
    ));
}

#[test]
fn file_header_records_total_size() {
    let bytes = one_image_header();
    let total = bytes.len() as u64;
    let mut stream = stream_of(&bytes);
    let mut fh = FileHeader { meta: NitfHeader::default(), header_size: 0 };
    fh.read(&mut stream).unwrap();
    assert_eq!(fh.header_size, total);
    assert_eq!(fh.meta.NUMI.bytes, b"001".to_vec());
}

#[test]
fn header_render_is_labelled_in_order() {
    let bytes = one_image_header();
    let mut stream = stream_of(&bytes);
    let h = NitfHeader::from_reader(&mut stream).unwrap();
    let text = h.render();
    assert!(text.starts_with("NitfHeader: [\nFHDR: NITF\nFVER: 02.10"));
    assert!(text.contains("\nNUMI: 001"));
    assert!(text.contains("\nIMHEADERS: \t[000100, 0000000512]"));
    assert!(text.ends_with("\nXHDL: 00000]"));
    assert_eq!(text, h.render());
}
