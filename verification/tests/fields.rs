use nitf::error::NitfError;
use nitf::source::DataSource;
use nitf::stream::ByteStream;
use nitf::types::FieldText;
use nitf::types::NitfField;
use nitf::types::NitfFieldVec;
use nitf::types::NitfSubHeader;
use nitf::types::NitfSubHeaderVec;
use nitf::types::Security;
use nitf::types::parse_count;

fn stream_of(bytes: &[u8]) -> ByteStream {
    ByteStream::open(DataSource::Buffered(bytes.to_vec()))
}

#[test]
fn field_read_records_bytes_offset_and_text() {
    let mut stream = stream_of(b"XYHELLO");
    let mut skip = NitfField::default();
    skip.read(&mut stream, 2).unwrap();
    let mut f = NitfField::default();
    f.read(&mut stream, 5).unwrap();
    assert_eq!(f.bytes, b"HELLO".to_vec());
    assert_eq!(f.offset, 2);
    assert_eq!(f.length, 5);
    match &f.text {
        FieldText::Valid(s) => assert_eq!(s, "HELLO"),
        FieldText::Undecodable => panic!("ASCII bytes must decode"),
    }
    assert_eq!(stream.pos, 7);
}

#[test]
fn field_read_tags_invalid_text_and_keeps_raw_bytes() {
    let mut stream = stream_of(&[0xFFu8, 0xFE, 0x41]);
    let mut f = NitfField::default();
    f.read(&mut stream, 3).unwrap();
    assert_eq!(f.bytes, vec![0xFFu8, 0xFE, 0x41]);
    assert!(matches!(f.text, FieldText::Undecodable));
}

#[test]
fn field_read_fails_truncated() {
    let mut stream = stream_of(b"AB");
    let mut f = NitfField::default();
    match f.read(&mut stream, 3) {
        Err(NitfError::TruncatedRead { offset, requested, available }) => {
            assert_eq!(offset, 0);
            assert_eq!(requested, 3);
            assert_eq!(available, 2);
        },
        _ => panic!("expected TruncatedRead"),
    }
    assert_eq!(stream.pos, 0);
}

#[test]
fn parse_count_reads_decimal_text() {
    assert_eq!(parse_count(&b"0000000512".to_vec(), 7).unwrap(), 512);
    assert_eq!(parse_count(&b"000".to_vec(), 7).unwrap(), 0);
    assert_eq!(parse_count(&b"18446744073709551615".to_vec(), 7).unwrap(), u64::MAX);
}

#[test]
fn parse_count_rejects_bad_text() {
    match parse_count(&b"abc".to_vec(), 42) {
        Err(NitfError::InvalidCount { offset }) => assert_eq!(offset, 42),
        _ => panic!("expected InvalidCount"),
    }
    assert!(parse_count(&b"".to_vec(), 0).is_err());
    assert!(parse_count(&b"12 4".to_vec(), 0).is_err());
    // One past the largest machine word.
    assert!(parse_count(&b"18446744073709551616".to_vec(), 0).is_err());
}

#[test]
fn field_vec_reads_count_elements_in_order() {
    let mut stream = stream_of(b"003AABBCC");
    let mut count = NitfField::default();
    count.read(&mut stream, 3).unwrap();
    let mut arr = NitfFieldVec { val: Vec::new() };
    arr.read_vec(&mut stream, &count, 2).unwrap();
    assert_eq!(arr.val.len(), 3);
    assert_eq!(arr.val[0].bytes, b"AA".to_vec());
    assert_eq!(arr.val[1].bytes, b"BB".to_vec());
    assert_eq!(arr.val[2].bytes, b"CC".to_vec());
    assert_eq!(arr.val[0].offset, 3);
    assert_eq!(arr.val[1].offset, 5);
    assert_eq!(arr.val[2].offset, 7);
    assert_eq!(stream.pos, 9);
}

#[test]
fn field_vec_zero_count_is_empty_not_error() {
    let mut stream = stream_of(b"000");
    let mut count = NitfField::default();
    count.read(&mut stream, 3).unwrap();
    let mut arr = NitfFieldVec { val: Vec::new() };
    arr.read_vec(&mut stream, &count, 7).unwrap();
    assert_eq!(arr.val.len(), 0);
    assert_eq!(stream.pos, 3);
}

#[test]
fn field_vec_bad_count_reports_count_offset() {
    let mut stream = stream_of(b"..abcAABB");
    let mut skip = NitfField::default();
    skip.read(&mut stream, 2).unwrap();
    let mut count = NitfField::default();
    count.read(&mut stream, 3).unwrap();
    let mut arr = NitfFieldVec { val: Vec::new() };
    match arr.read_vec(&mut stream, &count, 2) {
        Err(NitfError::InvalidCount { offset }) => assert_eq!(offset, 2),
        _ => panic!("expected InvalidCount at the count field's offset"),
    }
    assert_eq!(arr.val.len(), 0);
}

#[test]
fn subheader_reads_size_pair() {
    let mut stream = stream_of(b"0001000000000512");
    let mut entry = NitfSubHeader {
        subheader_size: NitfField::default(),
        item_size: NitfField::default(),
    };
    entry.read(&mut stream, 6, 10).unwrap();
    assert_eq!(entry.subheader_size.bytes, b"000100".to_vec());
    assert_eq!(entry.item_size.bytes, b"0000000512".to_vec());
    assert_eq!(entry.subheader_size.offset, 0);
    assert_eq!(entry.item_size.offset, 6);
    assert_eq!(stream.pos, 16);
}

#[test]
fn subheader_vec_reads_count_pairs() {
    let mut bytes = Vec::new();
    bytes.extend_from_slice(b"002");
    bytes.extend_from_slice(b"000100");
    bytes.extend_from_slice(b"0000000512");
    bytes.extend_from_slice(b"000100");
    bytes.extend_from_slice(b"0000001024");
    let mut stream = stream_of(&bytes);
    let mut count = NitfField::default();
    count.read(&mut stream, 3).unwrap();
    let mut table = NitfSubHeaderVec { val: Vec::new() };
    table.read(&mut stream, &count, 6, 10).unwrap();
    assert_eq!(table.val.len(), 2);
    assert_eq!(table.val[0].subheader_size.bytes, b"000100".to_vec());
    assert_eq!(table.val[0].item_size.bytes, b"0000000512".to_vec());
    assert_eq!(table.val[1].subheader_size.bytes, b"000100".to_vec());
    assert_eq!(table.val[1].item_size.bytes, b"0000001024".to_vec());
    assert_eq!(stream.pos, 35);
}

#[test]
fn subheader_vec_truncated_run_fails() {
    let mut stream = stream_of(b"0020001000000000512");
    let mut count = NitfField::default();
    count.read(&mut stream, 3).unwrap();
    let mut table = NitfSubHeaderVec { val: Vec::new() };
    match table.read(&mut stream, &count, 6, 10) {
        Err(NitfError::TruncatedRead { .. }) => {},
        _ => panic!("expected TruncatedRead"),
    }
    assert_eq!(table.val.len(), 0);
}

#[test]
fn security_reads_sixteen_fields() {
    let mut bytes = Vec::new();
    bytes.extend_from_slice(b"U");
    bytes.extend_from_slice(b"US");
    bytes.extend_from_slice(&[b'c'; 11]);
    bytes.extend_from_slice(b"hh");
    bytes.extend_from_slice(&[b'r'; 20]);
    bytes.extend_from_slice(b"DD");
    bytes.extend_from_slice(b"20240101");
    bytes.extend_from_slice(b"X251");
    bytes.extend_from_slice(b"S");
    bytes.extend_from_slice(b"20250101");
    bytes.extend_from_slice(&[b't'; 43]);
    bytes.extend_from_slice(b"O");
    bytes.extend_from_slice(&[b'a'; 40]);
    bytes.extend_from_slice(b"A");
    bytes.extend_from_slice(b"20230101");
    bytes.extend_from_slice(&[b'n'; 15]);
    assert_eq!(bytes.len(), 167);
    let mut stream = stream_of(&bytes);
    let mut sec = Security::default();
    sec.read(&mut stream).unwrap();
    assert_eq!(sec.CLAS.bytes, b"U".to_vec());
    assert_eq!(sec.CLSY.bytes, b"US".to_vec());
    assert_eq!(sec.DCDT.bytes, b"20240101".to_vec());
    assert_eq!(sec.CTLN.bytes, vec![b'n'; 15]);
    assert_eq!(sec.CTLN.offset, 152);
    assert_eq!(stream.pos, 167);
}

#[test]
fn security_truncated_fails() {
    let mut stream = stream_of(&[b' '; 100]);
    let mut sec = Security::default();
    assert!(matches!(
        sec.read(&mut stream),
        Err(NitfError::TruncatedRead { .. })
    ));
}
