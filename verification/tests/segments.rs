use nitf::error::NitfError;
use nitf::reserved::ReservedExtensionSegment;
use nitf::segment::OpaqueHeader;
use nitf::segment::Segment;
use nitf::source::DataSource;
use nitf::stream::ByteStream;
use nitf::types::FieldText;

fn stream_of(bytes: &[u8]) -> ByteStream {
    ByteStream::open(DataSource::Buffered(bytes.to_vec()))
}

/// A reserved-extension subheader: 196 fixed bytes, a four-digit user-defined
/// length, and that many user-defined bytes.
fn res_subheader(shf: &[u8]) -> Vec<u8> {
    let mut v = Vec::new();
    v.extend_from_slice(b"RE");
    v.extend_from_slice(&[b'i'; 25]);
    v.extend_from_slice(b"01");
    v.extend_from_slice(&[b' '; 167]);
    let digits = format!("{:04}", shf.len());
    v.extend_from_slice(digits.as_bytes());
    v.extend_from_slice(shf);
    v
}

#[test]
fn buffered_segment_copies_payload_and_advances() {
    let mut bytes = Vec::new();
    bytes.extend_from_slice(&[b'H'; 8]);
    bytes.extend_from_slice(&[5u8; 16]);
    bytes.extend_from_slice(&[b'?'; 3]);
    let mut stream = stream_of(&bytes);
    let seg = Segment::<OpaqueHeader>::from_reader(&mut stream, 8, 16).unwrap();
    assert_eq!(seg.header_offset, 0);
    assert_eq!(seg.header_size, 8);
    assert_eq!(seg.data_offset, 8);
    assert_eq!(seg.data_size, 16);
    assert_eq!(seg.data_offset, seg.header_offset + seg.header_size);
    assert_eq!(stream.pos, 24);
    assert_eq!(seg.meta.raw.bytes, vec![b'H'; 8]);
    let src = stream.src;
    assert_eq!(seg.read_data(&src), vec![5u8; 16]);
}

#[test]
fn mapped_segment_windows_without_copying() {
    let mut bytes = Vec::new();
    bytes.extend_from_slice(&[b'H'; 8]);
    bytes.extend_from_slice(&[7u8; 16]);
    let mut stream = stream_of(&bytes);
    let seg = Segment::<OpaqueHeader>::from_reader_mapped(&mut stream, 8, 16).unwrap();
    assert_eq!(seg.data_offset, seg.header_offset + seg.header_size);
    assert_eq!(stream.pos, 24);
    let src = stream.src;
    assert_eq!(seg.read_data(&src), vec![7u8; 16]);
}

#[test]
fn read_data_bytes_full_window_is_exact_and_stable() {
    let mut bytes = Vec::new();
    bytes.extend_from_slice(&[b'H'; 4]);
    bytes.extend_from_slice(&[1u8, 2, 3, 4, 5, 6]);
    let mut stream = stream_of(&bytes);
    let seg = Segment::<OpaqueHeader>::from_reader_mapped(&mut stream, 4, 6).unwrap();
    let src = stream.src;
    let first = seg.read_data_bytes(&src, 0, 6).unwrap().to_vec();
    let second = seg.read_data_bytes(&src, 0, 6).unwrap().to_vec();
    assert_eq!(first.len(), 6);
    assert_eq!(first, vec![1u8, 2, 3, 4, 5, 6]);
    assert_eq!(first, second);
    assert_eq!(seg.read_data_bytes(&src, 2, 5).unwrap(), &[3u8, 4, 5]);
}

#[test]
fn read_data_bytes_past_data_size_is_out_of_bounds() {
    let mut bytes = Vec::new();
    bytes.extend_from_slice(&[b'H'; 4]);
    bytes.extend_from_slice(&[1u8, 2, 3, 4, 5, 6]);
    let mut stream = stream_of(&bytes);
    let seg = Segment::<OpaqueHeader>::from_reader_mapped(&mut stream, 4, 6).unwrap();
    let src = stream.src;
    match seg.read_data_bytes(&src, 0, 7) {
        Err(NitfError::RangeOutOfBounds { start, end, data_size }) => {
            assert_eq!(start, 0);
            assert_eq!(end, 7);
            assert_eq!(data_size, 6);
        },
        _ => panic!("expected RangeOutOfBounds"),
    }
    assert!(seg.read_data_bytes(&src, 5, 2).is_err());
}

#[test]
fn segment_read_overwrites_in_place() {
    let mut bytes = Vec::new();
    bytes.extend_from_slice(&[b'A'; 2]);
    bytes.extend_from_slice(&[9u8; 3]);
    let mut stream = stream_of(&bytes);
    let mut seg = Segment::<OpaqueHeader>::from_reader(&mut stream, 0, 0).unwrap();
    let mut stream2 = stream_of(&bytes);
    seg.read(&mut stream2, 2, 3).unwrap();
    assert_eq!(seg.header_size, 2);
    assert_eq!(seg.data_size, 3);
    assert_eq!(seg.data_offset, 2);
}

#[test]
fn reserved_subheader_reads_dependent_width_field() {
    let bytes = res_subheader(b"ABCD");
    let mut stream = stream_of(&bytes);
    let mut hdr = ReservedExtensionSegment::default();
    hdr.read(&mut stream).unwrap();
    assert_eq!(hdr.RE.bytes, b"RE".to_vec());
    assert_eq!(hdr.RESID.bytes, vec![b'i'; 25]);
    assert_eq!(hdr.RESSHL.bytes, b"0004".to_vec());
    assert_eq!(hdr.RESSHF.bytes, b"ABCD".to_vec());
    assert_eq!(hdr.RESSHF.offset, 200);
    match &hdr.RESSHF.text {
        FieldText::Valid(s) => assert_eq!(s, "ABCD"),
        FieldText::Undecodable => panic!("ASCII bytes must decode"),
    }
    assert_eq!(stream.pos, 204);
}

#[test]
fn reserved_subheader_bad_length_is_invalid_count() {
    let mut bytes = res_subheader(b"");
    bytes[196..200].copy_from_slice(b"00x0");
    let mut stream = stream_of(&bytes);
    let mut hdr = ReservedExtensionSegment::default();
    match hdr.read(&mut stream) {
        Err(NitfError::InvalidCount { offset }) => assert_eq!(offset, 196),
        _ => panic!("expected InvalidCount at the length field's offset"),
    }
}

#[test]
fn self_terminating_header_size_is_derived() {
    let mut bytes = res_subheader(b"ABCDEF");
    bytes.extend_from_slice(&[3u8; 10]);
    let mut stream = stream_of(&bytes);
    let seg = Segment::<ReservedExtensionSegment>::from_reader_mapped(&mut stream, 0, 10).unwrap();
    assert_eq!(seg.header_offset, 0);
    assert_eq!(seg.header_size, 206);
    assert_eq!(seg.data_offset, 206);
    assert_eq!(seg.data_size, 10);
    let src = stream.src;
    assert_eq!(seg.read_data(&src), vec![3u8; 10]);
}

#[test]
fn declared_size_disagreeing_with_header_is_structural_mismatch() {
    let mut bytes = res_subheader(b"AB");
    bytes.extend_from_slice(&[0u8; 10]);
    let mut stream = stream_of(&bytes);
    match Segment::<ReservedExtensionSegment>::from_reader(&mut stream, 150, 10) {
        Err(NitfError::StructuralMismatch { declared, actual, offset }) => {
            assert_eq!(declared, 150);
            assert_eq!(actual, 202);
            assert_eq!(offset, 0);
        },
        _ => panic!("expected StructuralMismatch"),
    }
}
