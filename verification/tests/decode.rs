use nitf::error::NitfError;
use nitf::error::SegmentKind;
use nitf::nitf::Nitf;
use nitf::read_nitf;
use nitf::source::DataSource;

/// A primary header with the given counts and manifest entries, preceded by
/// 360 bytes of fixed fields.
fn build_header(
    numi: &str,
    im: &[(&str, &str)],
    nums: &str,
    gr: &[(&str, &str)],
    numt: &str,
    tx: &[(&str, &str)],
    numdes: &str,
    de: &[(&str, &str)],
    numres: &str,
    re: &[(&str, &str)],
) -> Vec<u8> {
    let mut v = vec![b' '; 360];
    v[0..4].copy_from_slice(b"NITF");
    v.extend_from_slice(numi.as_bytes());
    for (a, b) in im {
        v.extend_from_slice(a.as_bytes());
        v.extend_from_slice(b.as_bytes());
    }
    v.extend_from_slice(nums.as_bytes());
    for (a, b) in gr {
        v.extend_from_slice(a.as_bytes());
        v.extend_from_slice(b.as_bytes());
    }
    v.extend_from_slice(b"000");
    v.extend_from_slice(numt.as_bytes());
    for (a, b) in tx {
        v.extend_from_slice(a.as_bytes());
        v.extend_from_slice(b.as_bytes());
    }
    v.extend_from_slice(numdes.as_bytes());
    for (a, b) in de {
        v.extend_from_slice(a.as_bytes());
        v.extend_from_slice(b.as_bytes());
    }
    v.extend_from_slice(numres.as_bytes());
    for (a, b) in re {
        v.extend_from_slice(a.as_bytes());
        v.extend_from_slice(b.as_bytes());
    }
    v.extend_from_slice(b"00000");
    v.extend_from_slice(b"00000");
    v
}

fn zero_count_header() -> Vec<u8> {
    build_header("000", &[], "000", &[], "000", &[], "000", &[], "000", &[])
}

#[test]
fn test_read_nitf() {
    let res = read_nitf(None);
    let pass: bool;
    match res {
        Ok(_) => pass = true,
        Err(_) => pass = false,
    }
    assert!(pass == true)
}

#[test]
fn absent_source_yields_empty_aggregate() {
    let n = read_nitf(None).unwrap();
    assert_eq!(n.image_segments.len(), 0);
    assert_eq!(n.graphic_segments.len(), 0);
    assert_eq!(n.text_segments.len(), 0);
    assert_eq!(n.data_extension_segments.len(), 0);
    assert_eq!(n.reserved_extension_segments.len(), 0);
    assert_eq!(n.nitf_header.header_size, 0);
    assert_eq!(n.nitf_header.data_size, 0);
}

#[test]
fn empty_source_yields_empty_aggregate() {
    let n = Nitf::decode(DataSource::Buffered(Vec::new())).unwrap();
    assert_eq!(n.image_segments.len(), 0);
    assert_eq!(n.graphic_segments.len(), 0);
    assert_eq!(n.text_segments.len(), 0);
    assert_eq!(n.data_extension_segments.len(), 0);
    assert_eq!(n.reserved_extension_segments.len(), 0);
    assert_eq!(n.nitf_header.header_offset, 0);
    assert_eq!(n.nitf_header.header_size, 0);
}

#[test]
fn zero_counts_yield_empty_lists_not_errors() {
    let bytes = zero_count_header();
    let expected_len = bytes.len();
    let n = Nitf::decode(DataSource::Buffered(bytes)).unwrap();
    assert_eq!(n.image_segments.len(), 0);
    assert_eq!(n.graphic_segments.len(), 0);
    assert_eq!(n.text_segments.len(), 0);
    assert_eq!(n.data_extension_segments.len(), 0);
    assert_eq!(n.reserved_extension_segments.len(), 0);
    assert_eq!(n.nitf_header.header_offset, 0);
    assert_eq!(n.nitf_header.header_size, expected_len);
    assert_eq!(n.nitf_header.data_offset, expected_len);
}

#[test]
fn two_image_segments_sized_and_ordered() {
    let mut bytes = build_header(
        "002",
        &[("000100", "0000000512"), ("000100", "0000001024")],
        "000",
        &[],
        "000",
        &[],
        "000",
        &[],
        "000",
        &[],
    );
    let header_len = bytes.len();
    // First image segment: 100-byte subheader, 512-byte payload.
    bytes.extend_from_slice(&vec![b'H'; 100]);
    bytes.extend_from_slice(&vec![1u8; 512]);
    // Second image segment: 100-byte subheader, 1024-byte payload.
    bytes.extend_from_slice(&vec![b'h'; 100]);
    bytes.extend_from_slice(&vec![2u8; 1024]);
    let n = Nitf::decode(DataSource::Buffered(bytes)).unwrap();
    assert_eq!(n.image_segments.len(), 2);
    let first = &n.image_segments[0];
    let second = &n.image_segments[1];
    assert_eq!(first.header_offset, header_len);
    assert_eq!(first.header_size, 100);
    assert_eq!(first.data_offset, header_len + 100);
    assert_eq!(first.data_size, 512);
    assert_eq!(second.header_offset, header_len + 100 + 512);
    assert_eq!(second.header_size, 100);
    assert_eq!(second.data_offset, header_len + 100 + 512 + 100);
    assert_eq!(second.data_size, 1024);
    let d1 = first.read_data(&n.src);
    assert_eq!(d1.len(), 512);
    assert!(d1.iter().all(|b| *b == 1u8));
    let d2 = second.read_data(&n.src);
    assert_eq!(d2.len(), 1024);
    assert!(d2.iter().all(|b| *b == 2u8));
}

#[test]
fn non_digit_count_fails_with_invalid_count_at_offset() {
    let bytes = build_header("abc", &[], "000", &[], "000", &[], "000", &[], "000", &[]);
    match Nitf::decode(DataSource::Buffered(bytes)) {
        Err(NitfError::InvalidCount { offset }) => assert_eq!(offset, 360),
        _ => panic!("expected InvalidCount at the count field's offset"),
    }
}

#[test]
fn truncated_header_fails_with_truncated_read() {
    let bytes = vec![b' '; 10];
    match Nitf::decode(DataSource::Buffered(bytes)) {
        Err(NitfError::TruncatedRead { offset, requested, available }) => {
            assert_eq!(offset, 9);
            assert_eq!(requested, 2);
            assert_eq!(available, 10);
        },
        _ => panic!("expected TruncatedRead"),
    }
}

#[test]
fn bad_manifest_size_fails_inside_segment() {
    let mut bytes = build_header(
        "001",
        &[("0x0100", "0000000512")],
        "000",
        &[],
        "000",
        &[],
        "000",
        &[],
        "000",
        &[],
    );
    bytes.extend_from_slice(&vec![0u8; 612]);
    match Nitf::decode(DataSource::Buffered(bytes)) {
        Err(NitfError::InSegment { kind, index, cause }) => {
            assert_eq!(kind, SegmentKind::Image);
            assert_eq!(index, 0);
            assert!(matches!(*cause, NitfError::InvalidCount { .. }));
        },
        _ => panic!("expected InSegment wrapping InvalidCount"),
    }
}

#[test]
fn payload_truncation_fails_inside_segment() {
    let mut bytes = build_header(
        "001",
        &[("000010", "0000000512")],
        "000",
        &[],
        "000",
        &[],
        "000",
        &[],
        "000",
        &[],
    );
    // Only the subheader and half the payload are present.
    bytes.extend_from_slice(&vec![0u8; 10 + 256]);
    match Nitf::decode(DataSource::Buffered(bytes)) {
        Err(NitfError::InSegment { kind, index, cause }) => {
            assert_eq!(kind, SegmentKind::Image);
            assert_eq!(index, 0);
            assert!(matches!(*cause, NitfError::TruncatedRead { .. }));
        },
        _ => panic!("expected InSegment wrapping TruncatedRead"),
    }
}

#[test]
fn all_kinds_decoded_in_format_order() {
    let mut bytes = build_header(
        "001",
        &[("000010", "0000000004")],
        "001",
        &[("0008", "000002")],
        "001",
        &[("0006", "00003")],
        "001",
        &[("0005", "000000001")],
        "001",
        &[("0004", "0000002")],
    );
    let header_len = bytes.len();
    bytes.extend_from_slice(&vec![b'I'; 10 + 4]);
    bytes.extend_from_slice(&vec![b'G'; 8 + 2]);
    bytes.extend_from_slice(&vec![b'T'; 6 + 3]);
    bytes.extend_from_slice(&vec![b'D'; 5 + 1]);
    bytes.extend_from_slice(&vec![b'R'; 4 + 2]);
    let n = Nitf::decode(DataSource::Buffered(bytes)).unwrap();
    assert_eq!(n.image_segments.len(), 1);
    assert_eq!(n.graphic_segments.len(), 1);
    assert_eq!(n.text_segments.len(), 1);
    assert_eq!(n.data_extension_segments.len(), 1);
    assert_eq!(n.reserved_extension_segments.len(), 1);
    assert_eq!(n.image_segments[0].header_offset, header_len);
    assert_eq!(n.graphic_segments[0].header_offset, header_len + 14);
    assert_eq!(n.text_segments[0].header_offset, header_len + 14 + 10);
    assert_eq!(n.data_extension_segments[0].header_offset, header_len + 14 + 10 + 9);
    assert_eq!(
        n.reserved_extension_segments[0].header_offset,
        header_len + 14 + 10 + 9 + 6
    );
    assert_eq!(n.graphic_segments[0].read_data(&n.src), vec![b'G'; 2]);
    assert_eq!(n.text_segments[0].read_data(&n.src), vec![b'T'; 3]);
    assert_eq!(n.data_extension_segments[0].read_data(&n.src), vec![b'D'; 1]);
    assert_eq!(n.reserved_extension_segments[0].read_data(&n.src), vec![b'R'; 2]);
}

#[test]
fn decode_from_anonymous_map_matches_buffered() {
    let mut bytes = build_header(
        "001",
        &[("000010", "0000000004")],
        "000",
        &[],
        "000",
        &[],
        "000",
        &[],
        "000",
        &[],
    );
    bytes.extend_from_slice(&vec![b'H'; 10]);
    bytes.extend_from_slice(&[9u8, 8u8, 7u8, 6u8]);
    let mut map = memmap2::MmapOptions::new().len(bytes.len()).map_anon().unwrap();
    map.copy_from_slice(&bytes);
    let map = map.make_read_only().unwrap();
    let n = Nitf::decode(DataSource::Mapped(map)).unwrap();
    assert_eq!(n.image_segments.len(), 1);
    let seg = &n.image_segments[0];
    assert_eq!(seg.data_size, 4);
    let payload = seg.read_data_bytes(&n.src, 0, 4).unwrap();
    assert_eq!(payload, &[9u8, 8u8, 7u8, 6u8]);
}

#[test]
fn field_bytes_round_trip_to_source() {
    let bytes = build_header(
        "001",
        &[("000010", "0000000004")],
        "000",
        &[],
        "000",
        &[],
        "000",
        &[],
        "000",
        &[],
    );
    let mut full = bytes.clone();
    full.extend_from_slice(&vec![0u8; 14]);
    let n = Nitf::decode(DataSource::Buffered(full.clone())).unwrap();
    let h = &n.nitf_header.meta;
    assert_eq!(h.FHDR.bytes, full[0..4].to_vec());
    assert_eq!(h.FHDR.offset, 0);
    assert_eq!(h.NUMI.bytes, full[360..363].to_vec());
    assert_eq!(h.NUMI.offset, 360);
    let entry = &h.IMHEADERS.val[0];
    assert_eq!(entry.subheader_size.bytes, full[363..369].to_vec());
    assert_eq!(entry.item_size.bytes, full[369..379].to_vec());
}

#[test]
fn default_aggregate_is_empty() {
    let n = Nitf::default();
    assert_eq!(n.image_segments.len(), 0);
    assert_eq!(n.reserved_extension_segments.len(), 0);
    assert_eq!(n.nitf_header.header_size, 0);
}

#[test]
fn failure_in_second_segment_reports_its_index() {
    let mut bytes = build_header(
        "002",
        &[("000010", "0000000004"), ("000010", "0000000999")],
        "000",
        &[],
        "000",
        &[],
        "000",
        &[],
        "000",
        &[],
    );
    // The first segment is whole, the second's payload is missing.
    bytes.extend_from_slice(&vec![0u8; 14]);
    bytes.extend_from_slice(&vec![0u8; 10]);
    match Nitf::decode(DataSource::Buffered(bytes)) {
        Err(NitfError::InSegment { kind, index, cause }) => {
            assert_eq!(kind, SegmentKind::Image);
            assert_eq!(index, 1);
            assert!(matches!(*cause, NitfError::TruncatedRead { .. }));
        },
        _ => panic!("expected InSegment for the second image segment"),
    }
}
