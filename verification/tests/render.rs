use nitf::nitf::Nitf;
use nitf::source::DataSource;
use nitf::stream::ByteStream;
use nitf::types::FieldText;
use nitf::types::NitfField;
use nitf::types::NitfSubHeader;
use nitf::types::Security;

fn stream_of(bytes: &[u8]) -> ByteStream {
    ByteStream::open(DataSource::Buffered(bytes.to_vec()))
}

#[test]
fn field_renders_decoded_text() {
    let mut stream = stream_of(b"NITF");
    let mut f = NitfField::default();
    f.read(&mut stream, 4).unwrap();
    assert_eq!(f.render(), "NITF");
}

#[test]
fn undecodable_field_renders_marker() {
    let mut stream = stream_of(&[0xC0u8, 0x00]);
    let mut f = NitfField::default();
    f.read(&mut stream, 2).unwrap();
    assert!(matches!(f.text, FieldText::Undecodable));
    assert_eq!(f.render(), "(undecodable)");
}

#[test]
fn subheader_renders_bracketed_pair() {
    let mut stream = stream_of(b"0001000000000512");
    let mut entry = NitfSubHeader {
        subheader_size: NitfField::default(),
        item_size: NitfField::default(),
    };
    entry.read(&mut stream, 6, 10).unwrap();
    assert_eq!(entry.render(), "[000100, 0000000512]");
}

#[test]
fn security_render_is_labelled_and_deterministic() {
    let mut stream = stream_of(&[b'u'; 167]);
    let mut sec = Security::default();
    sec.read(&mut stream).unwrap();
    let text = sec.render();
    assert!(text.starts_with("CLAS: u, CLSY: uu, CODE: uuuuuuuuuuu, "));
    assert!(text.ends_with("CTLN: uuuuuuuuuuuuuuu"));
    assert_eq!(text, sec.render());
}

#[test]
fn container_render_brackets_header_and_segments() {
    let mut bytes = vec![b' '; 360];
    bytes[0..4].copy_from_slice(b"NITF");
    bytes.extend_from_slice(b"001");
    bytes.extend_from_slice(b"000004");
    bytes.extend_from_slice(b"0000000002");
    for _ in 0..5 {
        bytes.extend_from_slice(b"000");
    }
    bytes.extend_from_slice(b"00000");
    bytes.extend_from_slice(b"00000");
    bytes.extend_from_slice(b"HDR!");
    bytes.extend_from_slice(&[0xFFu8, 0xFE]);
    let n = Nitf::decode(DataSource::Buffered(bytes)).unwrap();
    let text = n.render();
    assert!(text.starts_with("[NitfHeader: ["));
    assert!(text.ends_with("[HDR!]"));
    assert_eq!(text, n.render());
}
